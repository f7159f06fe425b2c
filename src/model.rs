//! Where the tool keeps its state: the configuration root, the file of each
//! profile and the mount destination of each profile.
use vstd::prelude::*;

verus! {

/// The views of a sequence of strings.
pub open spec fn views(v: Seq<String>) -> Seq<Seq<char>> {
    v.map_values(|s: String| s@)
}

/// `name` appended to the directory `base`, with one separator between them
/// unless `base` is empty or already ends with one.
pub open spec fn join_path(base: Seq<char>, name: Seq<char>) -> Seq<char> {
    if base.len() == 0 || base.last() == '/' {
        base + name
    } else {
        base + seq!['/'] + name
    }
}

/// Appends `name` to the directory path `base`.
pub fn join(base: &str, name: &str) -> (r: String)
    ensures
        r@ == join_path(base@, name@),
{
    let n = base.unicode_len();
    let mut r = String::from_str(base);
    if n > 0 && base.get_char(n - 1) != '/' {
        let sep = "/";
        proof {
            reveal_strlit("/");
        }
        r.append(sep);
    }
    r.append(name);
    r
}

/// An environment variable's value when it is set and not empty.
pub open spec fn present(v: Option<String>) -> Option<Seq<char>> {
    match v {
        Some(s) => if s@.len() > 0 {
            Some(s@)
        } else {
            None
        },
        None => None,
    }
}

/// The configuration home: the config-home override if set and not empty,
/// else the home directory's `.config` if that variable is set, else the
/// user profile directory's `.config` if that one is set.
pub open spec fn config_home_of(
    xdg_config_home: Option<String>,
    home: Option<String>,
    user_profile: Option<String>,
) -> Option<Seq<char>> {
    if present(xdg_config_home) is Some {
        present(xdg_config_home)
    } else if home is Some {
        Some(join_path(home->Some_0@, ".config"@))
    } else if user_profile is Some {
        Some(join_path(user_profile->Some_0@, ".config"@))
    } else {
        None
    }
}

/// No environment variable tells where the configuration lives.
#[derive(Clone, Copy, Debug, PartialEq, Eq, Structural)]
pub enum EnvironmentError {
    Unresolved,
}

/// The directories the tool works in, resolved once at startup.
#[derive(Clone, Debug)]
pub struct EnvironmentModel {
    pub mount_path_base: String,
    pub config_path_base: String,
    pub config_path_mounts: String,
}

fn non_empty(v: &Option<String>) -> (r: bool)
    ensures
        r == (present(*v) is Some),
{
    match v {
        Some(s) => s.unicode_len() > 0,
        None => false,
    }
}

impl EnvironmentModel {
    /// Resolves the configuration home from the values of the variables
    /// `XDG_CONFIG_HOME`, `HOME` and `USERPROFILE` (`None` when unset).
    pub fn get_config_home(
        xdg_config_home: Option<String>,
        home: Option<String>,
        user_profile: Option<String>,
    ) -> (r: Result<String, EnvironmentError>)
        ensures
            config_home_of(xdg_config_home, home, user_profile) is Some <==> r is Ok,
            r is Ok ==> r->Ok_0@ == config_home_of(xdg_config_home, home, user_profile)->Some_0,
    {
        let config = ".config";
        if non_empty(&xdg_config_home) {
            match xdg_config_home {
                Some(s) => Ok(s),
                None => Err(EnvironmentError::Unresolved),
            }
        } else if home.is_some() {
            match home {
                Some(s) => Ok(join(s.as_str(), config)),
                None => Err(EnvironmentError::Unresolved),
            }
        } else if user_profile.is_some() {
            match user_profile {
                Some(s) => Ok(join(s.as_str(), config)),
                None => Err(EnvironmentError::Unresolved),
            }
        } else {
            Err(EnvironmentError::Unresolved)
        }
    }

    /// The model for the configuration home `config_home`: profiles live in
    /// `<config_home>/sftpman/mounts`, mounts under `/mnt/sshfs/`.
    pub fn new(config_home: &str) -> (r: EnvironmentModel)
        ensures
            r.mount_path_base@ == "/mnt/sshfs/"@,
            r.config_path_base@ == join_path(config_home@, "sftpman"@),
            r.config_path_mounts@ == join_path(r.config_path_base@, "mounts"@),
    {
        let config_path_base = join(config_home, "sftpman");
        let config_path_mounts = join(config_path_base.as_str(), "mounts");
        EnvironmentModel {
            mount_path_base: String::from_str("/mnt/sshfs/"),
            config_path_base,
            config_path_mounts,
        }
    }

    /// The file that holds the profile `system_id`.
    pub open spec fn config_path(&self, system_id: Seq<char>) -> Seq<char> {
        join_path(self.config_path_mounts@, system_id + ".json"@)
    }

    /// Where the profile `system_id` is mounted.
    pub open spec fn mount_dest(&self, system_id: Seq<char>) -> Seq<char> {
        join_path(self.mount_path_base@, system_id)
    }

    pub fn get_system_config_path(&self, system_id: &str) -> (r: String)
        ensures
            r@ == self.config_path(system_id@),
    {
        let file = String::from_str(system_id).concat(".json");
        join(self.config_path_mounts.as_str(), file.as_str())
    }

    pub fn get_system_mount_dest(&self, system_id: &str) -> (r: String)
        ensures
            r@ == self.mount_dest(system_id@),
    {
        join(self.mount_path_base.as_str(), system_id)
    }

    /// Whether the mount destination of `system_id` is among `mount_points`,
    /// the mount points of the live mount table.
    pub fn is_mounted(&self, system_id: &str, mount_points: &Vec<String>) -> (r: bool)
        ensures
            r == views(mount_points@).contains(self.mount_dest(system_id@)),
    {
        let dest = self.get_system_mount_dest(system_id);
        contains_str(mount_points, &dest)
    }
}

/// Whether `s` is one of the strings of `v`.
pub fn contains_str(v: &Vec<String>, s: &String) -> (r: bool)
    ensures
        r == views(v@).contains(s@),
{
    let mut i: usize = 0;
    while i < v.len()
        invariant
            i <= v@.len(),
            forall|j: int| 0 <= j < i ==> v@[j]@ != s@,
        decreases v@.len() - i,
    {
        if v[i].eq(s) {
            assert(views(v@)[i as int] == s@);
            return true;
        }
        i = i + 1;
    }
    assert forall|j: int| 0 <= j < views(v@).len() implies views(v@)[j] != s@ by {
        assert(views(v@)[j] == v@[j]@);
    }
    false
}

/// The profile id stored in the file named `name`: the name without its
/// `.json` extension, when it has one and something before it.
pub open spec fn id_of_file_name(name: Seq<char>) -> Option<Seq<char>> {
    if name.len() > 5 && name.subrange(name.len() - 5, name.len() as int) == ".json"@ {
        Some(name.subrange(0, name.len() - 5))
    } else {
        None
    }
}

/// The profile id of the file named `name`, if it holds one.
pub fn profile_id_of_file(name: &str) -> (r: Option<String>)
    ensures
        r is Some <==> id_of_file_name(name@) is Some,
        r is Some ==> r->Some_0@ == id_of_file_name(name@)->Some_0,
{
    let n = name.unicode_len();
    if n <= 5 {
        return None;
    }
    let ext = String::from_str(name.substring_char(n - 5, n));
    if ext.eq(&String::from_str(".json")) {
        Some(String::from_str(name.substring_char(0, n - 5)))
    } else {
        None
    }
}

/// The ids of the profiles stored in the files named `names` (the entries
/// of the profiles directory), in their order.
pub fn ids_from_file_names(names: &Vec<String>) -> (r: Vec<String>)
    ensures
        views(r@) == views(names@).filter_map(|n: Seq<char>| id_of_file_name(n)),
{
    let mut r: Vec<String> = Vec::new();
    let mut i: usize = 0;
    while i < names.len()
        invariant
            i <= names@.len(),
            views(r@) == views(names@).subrange(0, i as int).filter_map(
                |n: Seq<char>| id_of_file_name(n),
            ),
        decreases names@.len() - i,
    {
        let ghost before = r@;
        assert(views(names@).subrange(0, i + 1).drop_last() =~= views(names@).subrange(0, i as int));
        assert(views(names@).subrange(0, i + 1).last() == names@[i as int]@);
        match profile_id_of_file(names[i].as_str()) {
            Some(id) => {
                r.push(id);
                assert(views(r@) =~= views(before) + seq![id_of_file_name(names@[i as int]@)->Some_0]);
            },
            None => {},
        }
        i = i + 1;
    }
    assert(views(names@).subrange(0, names@.len() as int) =~= views(names@));
    r
}

/// What precedes the id in a mount destination under `base`.
pub open spec fn mount_prefix(base: Seq<char>) -> Seq<char> {
    join_path(base, Seq::empty())
}

/// The id mounted at `dest` under the mount base `base`: what follows the
/// base's prefix, when that is not empty and holds no `/`.
pub open spec fn id_of_mount_dest(base: Seq<char>, dest: Seq<char>) -> Option<Seq<char>> {
    let pre = mount_prefix(base);
    if pre.len() < dest.len() && dest.subrange(0, pre.len() as int) == pre && (forall|i: int|
        pre.len() <= i < dest.len() ==> dest[i] != '/') {
        Some(dest.subrange(pre.len() as int, dest.len() as int))
    } else {
        None
    }
}

impl EnvironmentModel {
    /// The id mounted at the mount point `dest`, if `dest` is the mount
    /// destination of some id.
    pub fn id_at_mount_point(&self, dest: &str) -> (r: Option<String>)
        ensures
            r is Some <==> id_of_mount_dest(self.mount_path_base@, dest@) is Some,
            r is Some ==> r->Some_0@ == id_of_mount_dest(self.mount_path_base@, dest@)->Some_0,
    {
        let pre = join(self.mount_path_base.as_str(), "");
        proof {
            reveal_strlit("");
            assert(""@ =~= Seq::<char>::empty());
        }
        let p = pre.as_str().unicode_len();
        let n = dest.unicode_len();
        if n <= p {
            return None;
        }
        let head = String::from_str(dest.substring_char(0, p));
        if !head.eq(&pre) {
            return None;
        }
        let mut i: usize = p;
        while i < n
            invariant
                p <= i <= n,
                n == dest@.len(),
                p == pre@.len(),
                pre@ == mount_prefix(self.mount_path_base@),
                forall|j: int| p <= j < i ==> dest@[j] != '/',
            decreases n - i,
        {
            if dest.get_char(i) == '/' {
                assert(dest@[i as int] == '/');
                return None;
            }
            i = i + 1;
        }
        Some(String::from_str(dest.substring_char(p, n)))
    }

    /// The ids mounted under the mount base, from `mount_points`, the mount
    /// points of the live mount table, in their order.
    pub fn get_mounted_ids(&self, mount_points: &Vec<String>) -> (r: Vec<String>)
        ensures
            views(r@) == views(mount_points@).filter_map(
                |d: Seq<char>| id_of_mount_dest(self.mount_path_base@, d),
            ),
    {
        let ghost f = |d: Seq<char>| id_of_mount_dest(self.mount_path_base@, d);
        let mut r: Vec<String> = Vec::new();
        let mut i: usize = 0;
        while i < mount_points.len()
            invariant
                i <= mount_points@.len(),
                f == (|d: Seq<char>| id_of_mount_dest(self.mount_path_base@, d)),
                views(r@) == views(mount_points@).subrange(0, i as int).filter_map(f),
            decreases mount_points@.len() - i,
        {
            let ghost before = r@;
            assert(views(mount_points@).subrange(0, i + 1).drop_last() =~= views(
                mount_points@,
            ).subrange(0, i as int));
            assert(views(mount_points@).subrange(0, i + 1).last() == mount_points@[i as int]@);
            match self.id_at_mount_point(mount_points[i].as_str()) {
                Some(id) => {
                    r.push(id);
                    assert(views(r@) =~= views(before) + seq![f(mount_points@[i as int]@)->Some_0]);
                },
                None => {},
            }
            i = i + 1;
        }
        assert(views(mount_points@).subrange(0, mount_points@.len() as int) =~= views(
            mount_points@,
        ));
        r
    }
}

/// The mount destination of an id made of id characters gives that id back.
pub proof fn lemma_mount_dest_id(base: Seq<char>, id: Seq<char>)
    requires
        id.len() > 0,
        forall|i: int| 0 <= i < id.len() ==> id[i] != '/',
    ensures
        id_of_mount_dest(base, join_path(base, id)) == Some(id),
{
    let pre = mount_prefix(base);
    let dest = join_path(base, id);
    assert(dest =~= pre + id);
    assert(dest.subrange(0, pre.len() as int) =~= pre);
    assert(dest.subrange(pre.len() as int, dest.len() as int) =~= id);
    assert forall|i: int| pre.len() <= i < dest.len() implies dest[i] != '/' by {
        assert(dest[i] == id[i - pre.len()]);
    }
}

} // verus!
