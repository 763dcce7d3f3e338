//! Arguments of the task-session tools: acceptance checks, session
//! identities and the plan for opening a task.

use vstd::prelude::*;

verus! {

/// Whether a check is required unless the call says otherwise.
pub fn default_required() -> (r: bool)
    ensures
        r == true,
{
    true
}

/// The time limit of a check, in seconds, unless the call says otherwise.
pub fn default_check_timeout() -> (r: u64)
    ensures
        r == 300,
{
    300
}

/// Why an acceptance check was refused.
#[derive(Clone, Copy, Debug, PartialEq, Eq, Structural)]
pub enum CheckSpecError {
    /// The check has no name.
    EmptyName,
    /// The check has no command.
    EmptyCommand,
    /// The check has a time limit of zero seconds.
    ZeroTimeout,
}

/// The text of each refusal.
pub open spec fn check_error_text(e: CheckSpecError) -> Seq<char> {
    match e {
        CheckSpecError::EmptyName => "check name cannot be empty"@,
        CheckSpecError::EmptyCommand => "check command cannot be empty"@,
        CheckSpecError::ZeroTimeout => "check timeout must be at least one second"@,
    }
}

impl CheckSpecError {
    /// The text of this refusal.
    pub fn message(&self) -> (r: String)
        ensures
            r@ == check_error_text(*self),
    {
        match self {
            CheckSpecError::EmptyName => String::from_str("check name cannot be empty"),
            CheckSpecError::EmptyCommand => String::from_str("check command cannot be empty"),
            CheckSpecError::ZeroTimeout => String::from_str(
                "check timeout must be at least one second",
            ),
        }
    }
}

/// The refusal a check with these fields gets, if any: the name and the
/// command must not be empty and the time limit must be at least one
/// second, as the advertised input schema of `soul_start_task` states.
pub open spec fn check_problem(name: Seq<char>, command: Seq<char>, timeout_secs: u64) -> Option<
    CheckSpecError,
> {
    if name.len() == 0 {
        Some(CheckSpecError::EmptyName)
    } else if command.len() == 0 {
        Some(CheckSpecError::EmptyCommand)
    } else if timeout_secs == 0 {
        Some(CheckSpecError::ZeroTimeout)
    } else {
        None
    }
}

/// An acceptance check of a task: a named command, whether it must pass,
/// and its time limit.
pub struct CheckSpec {
    name: String,
    command: String,
    required: bool,
    timeout_secs: u64,
}

impl CheckSpec {
    pub closed spec fn spec_name(&self) -> Seq<char> {
        self.name@
    }

    pub closed spec fn spec_command(&self) -> Seq<char> {
        self.command@
    }

    pub closed spec fn spec_required(&self) -> bool {
        self.required
    }

    pub closed spec fn spec_timeout_secs(&self) -> u64 {
        self.timeout_secs
    }

    /// A check, refused when `check_problem` finds one.
    pub fn new(name: String, command: String, required: bool, timeout_secs: u64) -> (r: Result<
        CheckSpec,
        CheckSpecError,
    >)
        ensures
            match check_problem(name@, command@, timeout_secs) {
                Some(e) => r == Err::<CheckSpec, CheckSpecError>(e),
                None => r matches Ok(c) && c.spec_name() == name@ && c.spec_command() == command@
                    && c.spec_required() == required && c.spec_timeout_secs() == timeout_secs,
            },
    {
        if name.as_str().is_empty() {
            Err(CheckSpecError::EmptyName)
        } else if command.as_str().is_empty() {
            Err(CheckSpecError::EmptyCommand)
        } else if timeout_secs == 0 {
            Err(CheckSpecError::ZeroTimeout)
        } else {
            Ok(CheckSpec { name, command, required, timeout_secs })
        }
    }

    pub fn name(&self) -> (r: &String)
        ensures
            r@ == self.spec_name(),
    {
        &self.name
    }

    pub fn command(&self) -> (r: &String)
        ensures
            r@ == self.spec_command(),
    {
        &self.command
    }

    pub fn required(&self) -> (r: bool)
        ensures
            r == self.spec_required(),
    {
        self.required
    }

    pub fn timeout_secs(&self) -> (r: u64)
        ensures
            r == self.spec_timeout_secs(),
    {
        self.timeout_secs
    }
}

/// An acceptance check as a `soul_start_task` call states it.
pub struct McpCheckSpec {
    pub name: String,
    pub command: String,
    pub required: bool,
    pub timeout_secs: u64,
}

/// The refusal a stated check gets, if any.
pub open spec fn mcp_check_problem(c: McpCheckSpec) -> Option<CheckSpecError> {
    check_problem(c.name@, c.command@, c.timeout_secs)
}

/// Whether `v` is the check `c` states.
pub open spec fn same_check(v: CheckSpec, c: McpCheckSpec) -> bool {
    &&& v.spec_name() == c.name@
    &&& v.spec_command() == c.command@
    &&& v.spec_required() == c.required
    &&& v.spec_timeout_secs() == c.timeout_secs
}

impl McpCheckSpec {
    /// The check this states, or the text of its refusal.
    pub fn into_check_spec(self) -> (r: Result<CheckSpec, String>)
        ensures
            match mcp_check_problem(self) {
                Some(e) => r matches Err(t) && t@ == check_error_text(e),
                None => r matches Ok(v) && same_check(v, self),
            },
    {
        match CheckSpec::new(self.name, self.command, self.required, self.timeout_secs) {
            Ok(c) => Ok(c),
            Err(e) => Err(e.message()),
        }
    }
}

/// `i` is the first of `checks` that is refused.
pub open spec fn is_first_problem(checks: Seq<McpCheckSpec>, i: int) -> bool {
    &&& 0 <= i < checks.len()
    &&& forall|j: int| 0 <= j < i ==> mcp_check_problem(#[trigger] checks[j]) is None
    &&& mcp_check_problem(checks[i]) is Some
}

/// The stated checks, converted in order; the first refusal stops the
/// conversion and is returned.
pub fn convert_checks(checks: Vec<McpCheckSpec>) -> (r: Result<Vec<CheckSpec>, String>)
    ensures
        match r {
            Ok(v) => v@.len() == checks@.len() && (forall|i: int|
                0 <= i < checks@.len() ==> mcp_check_problem(#[trigger] checks@[i]) is None
                    && same_check(v@[i], checks@[i])),
            Err(t) => exists|i: int|
                is_first_problem(checks@, i) && t@ == check_error_text(
                    #[trigger] mcp_check_problem(checks@[i])->Some_0,
                ),
        },
{
    let ghost all = checks@;
    let total = checks.len();
    let mut rest = checks;
    let mut out: Vec<CheckSpec> = Vec::new();
    while rest.len() > 0
        invariant
            all == checks@,
            all.len() == total,
            total == out@.len() + rest@.len(),
            rest@ == all.subrange(out@.len() as int, all.len() as int),
            forall|i: int|
                0 <= i < out@.len() ==> mcp_check_problem(#[trigger] all[i]) is None && same_check(
                    out@[i],
                    all[i],
                ),
        decreases rest.len(),
    {
        let c = rest.remove(0);
        let ghost k = out@.len() as int;
        assert(c == all[k]);
        match c.into_check_spec() {
            Ok(v) => {
                out.push(v);
                assert(rest@ =~= all.subrange(out@.len() as int, all.len() as int));
            },
            Err(t) => {
                assert(is_first_problem(all, k));
                assert(t@ == check_error_text(mcp_check_problem(all[k])->Some_0));
                return Err(t);
            },
        }
    }
    Ok(out)
}

/// A lower-case hexadecimal digit.
pub open spec fn is_lower_hex(c: char) -> bool {
    ('0' <= c <= '9') || ('a' <= c <= 'f')
}

/// The hyphenated lower-case text of a random (version 4, RFC 4122
/// variant) UUID, such as `67e55044-10b1-426f-9247-bb680e5fe0c8`.
pub open spec fn is_uuid_v4_text(s: Seq<char>) -> bool {
    &&& s.len() == 36
    &&& forall|i: int|
        0 <= i < 36 ==> if i == 8 || i == 13 || i == 18 || i == 23 {
            #[trigger] s[i] == '-'
        } else {
            is_lower_hex(s[i])
        }
    &&& s[14] == '4'
    &&& (s[19] == '8' || s[19] == '9' || s[19] == 'a' || s[19] == 'b')
}

/// The lower-case hexadecimal digit of a nibble (below sixteen).
pub open spec fn hex_char(n: u8) -> char {
    if n < 10 {
        crate::text::digit_char(n as nat)
    } else if n == 10 {
        'a'
    } else if n == 11 {
        'b'
    } else if n == 12 {
        'c'
    } else if n == 13 {
        'd'
    } else if n == 14 {
        'e'
    } else {
        'f'
    }
}

/// Two lower-case hexadecimal digits per byte, high nibble first.
pub open spec fn hex_text(b: Seq<u8>) -> Seq<char> {
    Seq::new(
        2 * b.len(),
        |i: int|
            if i % 2 == 0 {
                hex_char(b[i / 2] >> 4u8)
            } else {
                hex_char(b[i / 2] & 0x0fu8)
            },
    )
}

/// The bytes of a version 4, RFC 4122 variant UUID made from random bytes:
/// the version nibble of byte 6 set to 4, the top bits of byte 8 set to
/// `10`.
pub open spec fn v4_bytes(b: Seq<u8>) -> Seq<u8> {
    b.update(6, (b[6] & 0x0fu8) | 0x40u8).update(8, (b[8] & 0x3fu8) | 0x80u8)
}

/// 32 hexadecimal digits in the hyphenated 8-4-4-4-12 grouping.
pub open spec fn hyphenated(h: Seq<char>) -> Seq<char> {
    h.subrange(0, 8) + seq!['-'] + h.subrange(8, 12) + seq!['-'] + h.subrange(12, 16) + seq!['-']
        + h.subrange(16, 20) + seq!['-'] + h.subrange(20, 32)
}

/// The hyphenated lower-case text of the version 4 UUID built from 16
/// random bytes.
pub open spec fn uuid_v4_text(random_bytes: Seq<u8>) -> Seq<char> {
    hyphenated(hex_text(v4_bytes(random_bytes)))
}

/// Calls `uuid::Builder::from_random_bytes(..).into_uuid()` and renders the
/// UUID with its `Display` impl. The builder sets the version nibble of
/// byte 6 to 4 and the variant bits of byte 8 to RFC 4122; `Display` writes
/// the 16 bytes as lower-case hexadecimal, high nibble first, grouped
/// 8-4-4-4-12 with hyphens. Nothing here draws randomness or panics.
#[verifier::external_body]
fn render_uuid_v4(random_bytes: [u8; 16]) -> (r: String)
    ensures
        r@ == uuid_v4_text(random_bytes@),
{
    uuid::Builder::from_random_bytes(random_bytes).into_uuid().to_string()
}

/// Whatever the random bytes, the text is a hyphenated lower-case version 4
/// UUID: 36 characters, hyphens at 8, 13, 18 and 23, the version digit `4`
/// and an RFC 4122 variant digit.
pub proof fn lemma_uuid_v4_text_shape(random_bytes: Seq<u8>)
    requires
        random_bytes.len() == 16,
    ensures
        is_uuid_v4_text(uuid_v4_text(random_bytes)),
{
    let v = v4_bytes(random_bytes);
    let h = hex_text(v);
    assert forall|j: int| 0 <= j < 32 implies is_lower_hex(#[trigger] h[j]) by {
        let b = v[j / 2];
        assert((b >> 4u8) < 16 && (b & 0x0fu8) < 16) by (bit_vector);
    }
    let b6 = random_bytes[6];
    let b8 = random_bytes[8];
    assert((((b6 & 0x0fu8) | 0x40u8) >> 4u8) == 4) by (bit_vector);
    assert(8 <= (((b8 & 0x3fu8) | 0x80u8) >> 4u8) <= 11) by (bit_vector);
    assert(h[12] == '4');
    let r = uuid_v4_text(random_bytes);
    assert(r[14] == h[12]);
    assert(r[19] == h[16]);
    assert forall|i: int|
        0 <= i < 36 implies if i == 8 || i == 13 || i == 18 || i == 23 {
        #[trigger] r[i] == '-'
    } else {
        is_lower_hex(r[i])
    } by {
        if i < 8 {
            assert(r[i] == h[i]);
        } else if 8 < i < 13 {
            assert(r[i] == h[i - 1]);
        } else if 13 < i < 18 {
            assert(r[i] == h[i - 2]);
        } else if 18 < i < 23 {
            assert(r[i] == h[i - 3]);
        } else if 23 < i {
            assert(r[i] == h[i - 4]);
        }
    }
}

/// A session identity made up for a task that named none: `mcp-` and the
/// version 4 UUID built from `random_bytes`.
pub open spec fn fresh_session_id(random_bytes: Seq<u8>) -> Seq<char> {
    "mcp-"@ + uuid_v4_text(random_bytes)
}

/// The session identity a task is opened under: the one the call names,
/// else `mcp-` and the version 4 UUID built from `random_bytes` (drawn by
/// the caller).
pub fn session_id_or_fresh(given: Option<String>, random_bytes: [u8; 16]) -> (r: String)
    ensures
        match given {
            Some(s) => r@ == s@,
            None => r@ == fresh_session_id(random_bytes@),
        },
{
    match given {
        Some(s) => s,
        None => {
            let mut id = String::from_str("mcp-");
            let u = render_uuid_v4(random_bytes);
            id.append(u.as_str());
            id
        },
    }
}

/// The arguments of `soul_start_task`.
pub struct StartTaskArgs {
    pub prompt: String,
    pub checks: Vec<McpCheckSpec>,
    pub session_id: Option<String>,
    pub base_revision: Option<String>,
}

/// The arguments of `soul_resume_task`.
pub struct ResumeTaskArgs {
    pub session_id: String,
}

/// The error of a `soul_resume_task` call that names an unknown session.
pub fn session_not_found(session_id: &String) -> (r: String)
    ensures
        r@ == "session not found: "@ + session_id@,
{
    let mut t = String::from_str("session not found: ");
    t.append(session_id.as_str());
    t
}

/// What a `soul_start_task` call resolves to before its worktree is made:
/// the prompt, the converted checks, the session identity and the revision
/// to branch from.
pub struct StartTaskPlan {
    pub prompt: String,
    pub checks: Vec<CheckSpec>,
    pub session_id: String,
    pub base_revision: String,
}

/// Resolves a `soul_start_task` call: converts its checks (the first
/// refusal is returned), keeps the session identity or makes one up from
/// `random_bytes`, and takes
/// the named base revision or else `default_base_revision`.
pub fn plan_start_task(
    args: StartTaskArgs,
    default_base_revision: &String,
    random_bytes: [u8; 16],
) -> (r: Result<
    StartTaskPlan,
    String,
>)
    ensures
        match r {
            Ok(p) => {
                &&& p.prompt@ == args.prompt@
                &&& p.checks@.len() == args.checks@.len()
                &&& forall|i: int|
                    0 <= i < args.checks@.len() ==> mcp_check_problem(#[trigger] args.checks@[i])
                        is None && same_check(p.checks@[i], args.checks@[i])
                &&& match args.session_id {
                    Some(s) => p.session_id@ == s@,
                    None => p.session_id@ == fresh_session_id(random_bytes@),
                }
                &&& match args.base_revision {
                    Some(b) => p.base_revision@ == b@,
                    None => p.base_revision@ == default_base_revision@,
                }
            },
            Err(t) => exists|i: int|
                is_first_problem(args.checks@, i) && t@ == check_error_text(
                    #[trigger] mcp_check_problem(args.checks@[i])->Some_0,
                ),
        },
{
    let StartTaskArgs { prompt, checks, session_id, base_revision } = args;
    let checks = match convert_checks(checks) {
        Ok(c) => c,
        Err(t) => {
            return Err(t);
        },
    };
    let session_id = session_id_or_fresh(session_id, random_bytes);
    let base_revision = match base_revision {
        Some(b) => b,
        None => default_base_revision.clone(),
    };
    Ok(StartTaskPlan { prompt, checks, session_id, base_revision })
}

} // verus!
