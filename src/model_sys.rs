//! The mount profile: construction, validation, and the check that stands
//! before persistence.
use vstd::prelude::*;
use crate::model::EnvironmentModel;

verus! {

/// A character allowed in an id or a user name: ASCII letters, digits,
/// dot, dash, underscore and at sign.
pub open spec fn is_id_char(c: char) -> bool {
    ('a' <= c && c <= 'z') || ('A' <= c && c <= 'Z') || ('0' <= c && c <= '9') || c == '.'
        || c == '-' || c == '_' || c == '@'
}

/// A character allowed in a host name: ASCII letters, digits, dot and dash.
pub open spec fn is_host_char(c: char) -> bool {
    ('a' <= c && c <= 'z') || ('A' <= c && c <= 'Z') || ('0' <= c && c <= '9') || c == '.'
        || c == '-'
}

/// A non-empty text made of id characters only.
pub open spec fn is_id_text(s: Seq<char>) -> bool {
    s.len() > 0 && forall|i: int| 0 <= i < s.len() ==> #[trigger] is_id_char(s[i])
}

/// A non-empty text made of host characters only.
pub open spec fn is_host_text(s: Seq<char>) -> bool {
    s.len() > 0 && forall|i: int| 0 <= i < s.len() ==> #[trigger] is_host_char(s[i])
}

/// Relies on `regex::Regex::new` and `regex::Regex::is_match`: both patterns
/// admitted here compile, and a pattern `^[class]+$` matches exactly the
/// non-empty haystacks made of characters of the class (`^` and `$` anchor
/// at the start and the end of the haystack).
#[verifier::external_body]
fn pattern_matches(pattern: &str, text: &str) -> (r: bool)
    requires
        pattern@ == r"^[a-zA-Z0-9\.\-_@]+$"@ || pattern@ == r"^[a-zA-Z0-9\.\-]+$"@,
    ensures
        pattern@ == r"^[a-zA-Z0-9\.\-_@]+$"@ ==> r == is_id_text(text@),
        pattern@ == r"^[a-zA-Z0-9\.\-]+$"@ ==> r == is_host_text(text@),
{
    regex::Regex::new(pattern).unwrap().is_match(text)
}

/// The field of a profile that a validation error is about.
#[derive(Clone, Copy, Debug, PartialEq, Eq, Structural)]
pub enum Field {
    Id,
    Host,
    User,
    Port,
    AuthMethod,
    SshKey,
    MountPoint,
}

/// The stable name of a field, as it appears in the stored profile.
pub open spec fn field_name(f: Field) -> Seq<char> {
    match f {
        Field::Id => "id"@,
        Field::Host => "host"@,
        Field::User => "user"@,
        Field::Port => "port"@,
        Field::AuthMethod => "auth_method"@,
        Field::SshKey => "ssh_key"@,
        Field::MountPoint => "mount_point"@,
    }
}

/// The message reported for an invalid field.
pub open spec fn error_message(f: Field) -> Seq<char> {
    match f {
        Field::Id => "IDs can only contain letters, digits, dot, @, dash and underscore."@,
        Field::Host => "Hosts can only contain letters, digits, dot and dash."@,
        Field::User => "Usernames can only contain letters, at signs and digits."@,
        Field::Port => "Ports need to be numbers between 0 and 65535."@,
        Field::AuthMethod => "Unknown auth type."@,
        Field::SshKey => "Invalid ssh key path."@,
        Field::MountPoint => "Mount point must be an existing directory."@,
    }
}

impl Field {
    pub fn name(&self) -> (r: &'static str)
        ensures
            r@ == field_name(*self),
    {
        match self {
            Field::Id => "id",
            Field::Host => "host",
            Field::User => "user",
            Field::Port => "port",
            Field::AuthMethod => "auth_method",
            Field::SshKey => "ssh_key",
            Field::MountPoint => "mount_point",
        }
    }
}

/// One problem found by validation: the field and a message for the user.
#[derive(Clone, Debug)]
pub struct FieldError {
    pub field: Field,
    pub message: String,
}

impl FieldError {
    pub fn new(field: Field) -> (e: FieldError)
        ensures
            e.field == field,
            e.message@ == error_message(field),
    {
        let message = match field {
            Field::Id => "IDs can only contain letters, digits, dot, @, dash and underscore.",
            Field::Host => "Hosts can only contain letters, digits, dot and dash.",
            Field::User => "Usernames can only contain letters, at signs and digits.",
            Field::Port => "Ports need to be numbers between 0 and 65535.",
            Field::AuthMethod => "Unknown auth type.",
            Field::SshKey => "Invalid ssh key path.",
            Field::MountPoint => "Mount point must be an existing directory.",
        };
        FieldError { field, message: String::from_str(message) }
    }
}

/// The mount option that is dropped when a profile is built.
pub open spec fn is_unsupported_opt(o: Seq<char>) -> bool {
    o == "big_writes"@
}

/// The mount options that a profile keeps, in their order.
pub open spec fn supported_opts(opts: Seq<String>) -> Seq<String> {
    opts.filter(|o: String| !is_unsupported_opt(o@))
}

pub open spec fn is_auth_method(s: Seq<char>) -> bool {
    s == "publickey"@ || s == "authentication-agent"@ || s == "password"@
}

pub open spec fn port_in_range(port: int) -> bool {
    0 <= port <= 65535
}

/// Public-key authentication without a key that exists on disk.
pub open spec fn ssh_key_missing(p: SystemModel, key_exists: bool) -> bool {
    p.auth_method@ == "publickey"@ && !(p.ssh_key.is_some() && key_exists)
}

pub open spec fn flag(b: bool, f: Field) -> Seq<Field> {
    if b {
        seq![f]
    } else {
        seq![]
    }
}

/// The fields reported by validation, in the order the rules are checked.
/// `key_exists` tells whether the ssh key path exists, `dir_exists` whether
/// the mount point is an existing directory.
pub open spec fn validation_fields(p: SystemModel, key_exists: bool, dir_exists: bool) -> Seq<Field> {
    flag(!is_id_text(p.id@), Field::Id)
    + flag(!is_host_text(p.host@), Field::Host)
    + flag(!is_id_text(p.user@), Field::User)
    + flag(!port_in_range(p.port as int), Field::Port)
    + flag(!is_auth_method(p.auth_method@), Field::AuthMethod)
    + flag(is_auth_method(p.auth_method@) && ssh_key_missing(p, key_exists), Field::SshKey)
    + flag(!dir_exists, Field::MountPoint)
}

pub open spec fn error_fields(errors: Seq<FieldError>) -> Seq<Field> {
    errors.map_values(|e: FieldError| e.field)
}

/// One remote filesystem mount, identified by `id`.
#[derive(Clone, Debug)]
pub struct SystemModel {
    pub id: String,
    pub host: String,
    pub port: i32,
    pub user: String,
    pub mount_opts: Vec<String>,
    pub mount_point: String,
    pub auth_method: String,
    pub ssh_key: Option<String>,
    pub cmd_before_mount: Option<String>,
}

/// Keeps the supported options of `opts`, in their order.
pub fn filter_mount_opts(opts: Vec<String>) -> (r: Vec<String>)
    ensures
        r@ == supported_opts(opts@),
        forall|i: int| 0 <= i < r@.len() ==> !is_unsupported_opt(#[trigger] r@[i]@),
{
    let unsupported = String::from_str(SystemModel::UNSUPPORTED_MOUNT_OPT);
    let mut r: Vec<String> = Vec::new();
    let mut i: usize = 0;
    while i < opts.len()
        invariant
            i <= opts@.len(),
            unsupported@ == "big_writes"@,
            r@ == supported_opts(opts@.subrange(0, i as int)),
            forall|j: int| 0 <= j < r@.len() ==> !is_unsupported_opt(#[trigger] r@[j]@),
        decreases opts@.len() - i,
    {
        proof {
            reveal(Seq::filter);
            assert(opts@.subrange(0, i + 1).drop_last() =~= opts@.subrange(0, i as int));
        }
        if !opts[i].eq(&unsupported) {
            r.push(opts[i].clone());
        }
        i = i + 1;
    }
    proof {
        assert(opts@.subrange(0, opts@.len() as int) =~= opts@);
    }
    r
}

impl SystemModel {
    pub const PORT_RANGE_MIN: i32 = 0;
    pub const PORT_RANGE_MAX: i32 = 65535;
    pub const SSH_PORT_DEFAULT: i32 = 22;
    pub const AUTH_METHOD_PUBLIC_KEY: &'static str = "publickey";
    pub const AUTH_METHOD_AUTHENTICATION_AGENT: &'static str = "authentication-agent";
    pub const AUTH_METHOD_PASSWORD: &'static str = "password";
    /// The mount option that is dropped when a profile is built.
    pub const UNSUPPORTED_MOUNT_OPT: &'static str = "big_writes";

    /// Builds a profile. Unsupported mount options are dropped; a missing ssh
    /// key or pre-mount command is stored as an empty string, so that the
    /// stored profile names every field.
    pub fn new(
        id: String,
        host: String,
        port: i32,
        user: String,
        mount_opts: Vec<String>,
        mount_point: String,
        auth_method: String,
        ssh_key: Option<String>,
        cmd_before_mount: Option<String>,
    ) -> (r: Self)
        ensures
            r.id == id,
            r.host == host,
            r.port == port,
            r.user == user,
            r.mount_opts@ == supported_opts(mount_opts@),
            forall|i: int| 0 <= i < r.mount_opts@.len() ==> !is_unsupported_opt(#[trigger] r.mount_opts@[i]@),
            r.mount_point == mount_point,
            r.auth_method == auth_method,
            r.ssh_key is Some,
            r.ssh_key->Some_0@ == (match ssh_key {
                Some(k) => k@,
                None => Seq::empty(),
            }),
            r.cmd_before_mount is Some,
            r.cmd_before_mount->Some_0@ == (match cmd_before_mount {
                Some(c) => c@,
                None => Seq::empty(),
            }),
    {
        let ssh_key = match ssh_key {
            Some(k) => k,
            None => String::new(),
        };
        let cmd_before_mount = match cmd_before_mount {
            Some(c) => c,
            None => String::new(),
        };
        Self {
            id,
            host,
            port,
            user,
            mount_opts: filter_mount_opts(mount_opts),
            mount_point,
            auth_method,
            ssh_key: Some(ssh_key),
            cmd_before_mount: Some(cmd_before_mount),
        }
    }
}

/// Every error carries the message of its field.
pub open spec fn messages_match(errors: Seq<FieldError>) -> bool {
    forall|i: int| 0 <= i < errors.len() ==> (#[trigger] errors[i]).message@ == error_message(errors[i].field)
}

/// Appends the error of `field` when `broken` holds.
fn push_if(errors: &mut Vec<FieldError>, broken: bool, field: Field)
    requires
        messages_match(old(errors)@),
    ensures
        messages_match(final(errors)@),
        error_fields(final(errors)@) == error_fields(old(errors)@) + flag(broken, field),
{
    if broken {
        errors.push(FieldError::new(field));
    }
    assert(error_fields(errors@) =~= error_fields(old(errors)@) + flag(broken, field));
}

impl SystemModel {
    /// Checks every rule and reports each broken one, in the order id, host,
    /// user, port, auth method, ssh key, mount point. The ssh key is checked
    /// only for a known auth method. The filesystem is not read here: the
    /// caller tells whether the ssh key path exists (`ssh_key_exists`, looked
    /// up only when `ssh_key` is set) and whether the mount point is an
    /// existing directory (`mount_point_is_dir`).
    pub fn validate(&self, ssh_key_exists: bool, mount_point_is_dir: bool) -> (r: (
        bool,
        Vec<FieldError>,
    ))
        ensures
            error_fields(r.1@) == validation_fields(*self, ssh_key_exists, mount_point_is_dir),
            messages_match(r.1@),
            r.0 == (r.1@.len() == 0),
    {
        let id_pattern = r"^[a-zA-Z0-9\.\-_@]+$";
        let host_pattern = r"^[a-zA-Z0-9\.\-]+$";
        let mut errors: Vec<FieldError> = Vec::new();
        assert(error_fields(errors@) =~= Seq::empty());
        push_if(&mut errors, !pattern_matches(id_pattern, self.id.as_str()), Field::Id);
        push_if(&mut errors, !pattern_matches(host_pattern, self.host.as_str()), Field::Host);
        push_if(&mut errors, !pattern_matches(id_pattern, self.user.as_str()), Field::User);
        push_if(
            &mut errors,
            self.port < Self::PORT_RANGE_MIN || self.port > Self::PORT_RANGE_MAX,
            Field::Port,
        );
        let publickey = String::from_str(Self::AUTH_METHOD_PUBLIC_KEY);
        let agent = String::from_str(Self::AUTH_METHOD_AUTHENTICATION_AGENT);
        let password = String::from_str(Self::AUTH_METHOD_PASSWORD);
        let known = self.auth_method.eq(&publickey) || self.auth_method.eq(&agent)
            || self.auth_method.eq(&password);
        push_if(&mut errors, !known, Field::AuthMethod);
        let key_ok = match &self.ssh_key {
            Some(_) => ssh_key_exists,
            None => false,
        };
        push_if(&mut errors, known && self.auth_method.eq(&publickey) && !key_ok, Field::SshKey);
        push_if(&mut errors, !mount_point_is_dir, Field::MountPoint);
        assert(Seq::<Field>::empty() + flag(!is_id_text(self.id@), Field::Id) =~= flag(
            !is_id_text(self.id@),
            Field::Id,
        ));
        (errors.len() == 0, errors)
    }
}

/// What one profile file holds.
#[derive(Clone, Debug)]
pub struct Config {
    pub instances: Vec<SystemModel>,
}

/// Why a profile could not be read or written.
#[derive(Clone, Copy, Debug, PartialEq, Eq, Structural)]
pub enum StoreError {
    /// No profile is stored under the id.
    NotFound,
    /// The stored file does not describe the profile.
    Parse,
    /// Reading or writing the file failed.
    Io,
}

/// The first profile of `instances` with id `id`.
pub open spec fn profile_of(instances: Seq<SystemModel>, id: Seq<char>) -> Option<SystemModel>
    decreases instances.len(),
{
    if instances.len() == 0 {
        None
    } else if instances[0].id@ == id {
        Some(instances[0])
    } else {
        profile_of(instances.drop_first(), id)
    }
}

impl Config {
    /// The file contents for the single profile `profile`.
    pub fn of_profile(profile: SystemModel) -> (c: Config)
        ensures
            c.instances@ == seq![profile],
    {
        Config { instances: vec![profile] }
    }

    /// The profile `id` out of a loaded file: the first instance with that
    /// id, or `Parse` when the file holds none.
    pub fn into_profile(self, id: &str) -> (r: Result<SystemModel, StoreError>)
        ensures
            profile_of(self.instances@, id@) is Some ==> r == Ok::<SystemModel, StoreError>(
                profile_of(self.instances@, id@)->Some_0,
            ),
            profile_of(self.instances@, id@) is None ==> r == Err::<SystemModel, StoreError>(
                StoreError::Parse,
            ),
    {
        let ghost all = self.instances@;
        let mut config = self;
        let wanted = String::from_str(id);
        let mut i: usize = 0;
        assert(all.subrange(0, all.len() as int) =~= all);
        while i < config.instances.len()
            invariant
                config.instances@ == all,
                self.instances@ == all,
                wanted@ == id@,
                i <= all.len(),
                profile_of(all, id@) == profile_of(all.subrange(i as int, all.len() as int), id@),
            decreases all.len() - i,
        {
            assert(all.subrange(i as int, all.len() as int).drop_first() =~= all.subrange(
                i + 1,
                all.len() as int,
            ));
            assert(all.subrange(i as int, all.len() as int)[0] == all[i as int]);
            if config.instances[i].id.eq(&wanted) {
                return Ok(config.instances.remove(i));
            }
            i = i + 1;
        }
        Err(StoreError::Parse)
    }
}

/// Reading back the file written for a profile gives that profile.
pub proof fn lemma_config_round_trip(profile: SystemModel)
    ensures
        profile_of(seq![profile], profile.id@) == Some(profile),
{
}

impl SystemModel {
    /// Persistence only for a valid profile: a valid profile yields the file it
    /// is written to and the contents to write; an invalid one yields its
    /// validation errors and nothing to write. `ssh_key_exists` and
    /// `mount_point_is_dir` are as for `validate`.
    pub fn prepare_save(
        self,
        env: &EnvironmentModel,
        ssh_key_exists: bool,
        mount_point_is_dir: bool,
    ) -> (r: Result<(String, Config), Vec<FieldError>>)
        ensures
            r is Ok <==> validation_fields(self, ssh_key_exists, mount_point_is_dir).len() == 0,
            r is Ok ==> r->Ok_0.0@ == env.config_path(self.id@) && r->Ok_0.1.instances@ == seq![self],
            r is Err ==> error_fields(r->Err_0@) == validation_fields(self, ssh_key_exists, mount_point_is_dir)
                && messages_match(r->Err_0@),
    {
        let (ok, errors) = self.validate(ssh_key_exists, mount_point_is_dir);
        if ok {
            let path = env.get_system_config_path(self.id.as_str());
            Ok((path, Config::of_profile(self)))
        } else {
            Err(errors)
        }
    }
}

/// The fields and messages of a list of errors.
pub open spec fn error_views(errors: Seq<FieldError>) -> Seq<(Field, Seq<char>)> {
    errors.map_values(|e: FieldError| (e.field, e.message@))
}

/// Validation is deterministic: two error lists that both meet the contract
/// of `validate` for the same profile and the same filesystem answers hold
/// the same errors in the same order.
pub proof fn lemma_validation_deterministic(
    p: SystemModel,
    ssh_key_exists: bool,
    mount_point_is_dir: bool,
    e1: Seq<FieldError>,
    e2: Seq<FieldError>,
)
    requires
        error_fields(e1) == validation_fields(p, ssh_key_exists, mount_point_is_dir),
        error_fields(e2) == validation_fields(p, ssh_key_exists, mount_point_is_dir),
        messages_match(e1),
        messages_match(e2),
    ensures
        error_views(e1) == error_views(e2),
{
    assert(e1.len() == error_fields(e1).len());
    assert(e2.len() == error_fields(e2).len());
    assert forall|i: int| 0 <= i < e1.len() implies error_views(e1)[i] == error_views(e2)[i] by {
        assert(error_fields(e1)[i] == e1[i].field);
        assert(error_fields(e2)[i] == e2[i].field);
        assert(e1[i].message@ == error_message(e1[i].field));
        assert(e2[i].message@ == error_message(e2[i].field));
    }
    assert(error_views(e1) =~= error_views(e2));
}

proof fn lemma_concat_contains(a: Seq<Field>, b: Seq<Field>, x: Field)
    ensures
        (a + b).contains(x) <==> (a.contains(x) || b.contains(x)),
{
    if (a + b).contains(x) {
        let w = choose|w: int| 0 <= w < (a + b).len() && (a + b)[w] == x;
        if w < a.len() {
            assert(a[w] == x);
        } else {
            assert(b[w - a.len()] == x);
        }
    }
    if a.contains(x) {
        let w = choose|w: int| 0 <= w < a.len() && a[w] == x;
        assert((a + b)[w] == x);
    }
    if b.contains(x) {
        let w = choose|w: int| 0 <= w < b.len() && b[w] == x;
        assert((a + b)[w + a.len()] == x);
    }
}

proof fn lemma_flag_contains(broken: bool, f: Field, x: Field)
    ensures
        flag(broken, f).contains(x) <==> (broken && f == x),
{
    if broken {
        assert(flag(broken, f)[0] == f);
    }
}

/// The ssh key matters only for public-key authentication: with `password`
/// no ssh key error is ever reported, whatever the key; with `publickey` and
/// a key that does not exist, validation always fails on the ssh key.
pub proof fn lemma_auth_method_gate(p: SystemModel, ssh_key_exists: bool, mount_point_is_dir: bool)
    ensures
        p.auth_method@ == "password"@ ==> !validation_fields(
            p,
            ssh_key_exists,
            mount_point_is_dir,
        ).contains(Field::SshKey),
        p.auth_method@ == "publickey"@ && !ssh_key_exists ==> validation_fields(
            p,
            ssh_key_exists,
            mount_point_is_dir,
        ).contains(Field::SshKey),
{
    reveal_strlit("password");
    reveal_strlit("publickey");
    assert("password"@[1] != "publickey"@[1]);
    let f1 = flag(!is_id_text(p.id@), Field::Id);
    let f2 = flag(!is_host_text(p.host@), Field::Host);
    let f3 = flag(!is_id_text(p.user@), Field::User);
    let f4 = flag(!port_in_range(p.port as int), Field::Port);
    let f5 = flag(!is_auth_method(p.auth_method@), Field::AuthMethod);
    let f6 = flag(is_auth_method(p.auth_method@) && ssh_key_missing(p, ssh_key_exists), Field::SshKey);
    let f7 = flag(!mount_point_is_dir, Field::MountPoint);
    let x = Field::SshKey;
    lemma_flag_contains(!is_id_text(p.id@), Field::Id, x);
    lemma_flag_contains(!is_host_text(p.host@), Field::Host, x);
    lemma_flag_contains(!is_id_text(p.user@), Field::User, x);
    lemma_flag_contains(!port_in_range(p.port as int), Field::Port, x);
    lemma_flag_contains(!is_auth_method(p.auth_method@), Field::AuthMethod, x);
    lemma_flag_contains(is_auth_method(p.auth_method@) && ssh_key_missing(p, ssh_key_exists), Field::SshKey, x);
    lemma_flag_contains(!mount_point_is_dir, Field::MountPoint, x);
    lemma_concat_contains(f1, f2, x);
    lemma_concat_contains(f1 + f2, f3, x);
    lemma_concat_contains(f1 + f2 + f3, f4, x);
    lemma_concat_contains(f1 + f2 + f3 + f4, f5, x);
    lemma_concat_contains(f1 + f2 + f3 + f4 + f5, f6, x);
    lemma_concat_contains(f1 + f2 + f3 + f4 + f5 + f6, f7, x);
}

} // verus!
