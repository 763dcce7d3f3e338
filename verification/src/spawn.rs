//! `POST /api/mesh/spawn`: turning a request body into a supervised brain
//! process, and what the route answers.

use vstd::prelude::*;
use crate::json::{Json, JsonValue, obj, obj2, obj5, member, text_of, lemma_lookup_finds};
use crate::text::{chars_of, decimal, is_ascii_alphanumeric, is_ascii_alphanumeric_char, push_decimal};
use vstd::string::StringSliceAdditionalSpecFns;

verus! {

/// Maximum brains alive at once.
pub const MAX_LIVE_BRAINS: usize = 16;

/// The first port handed to a brain.
pub const FIRST_BRAIN_PORT: u16 = 9016;

/// Highest port the search hands out.
pub const MAX_BRAIN_PORT: u16 = 9999;

/// Longest domain name accepted.
pub const MAX_DOMAIN_LEN: usize = 64;

/// The interpreter a brain runs under.
pub const BRAIN_INTERPRETER: &'static str = "python3";

/// A character allowed in a domain name.
pub open spec fn is_domain_char(c: char) -> bool {
    is_ascii_alphanumeric_char(c) || c == '_' || c == '-'
}

/// A domain name the route accepts: 1 to 64 characters, each an ASCII
/// letter or digit, `_` or `-`, and not starting with `-`.
pub open spec fn is_valid_domain(d: Seq<char>) -> bool {
    &&& d.len() > 0
    &&& d.len() <= MAX_DOMAIN_LEN
    &&& forall|i: int| 0 <= i < d.len() ==> #[trigger] is_domain_char(d[i])
    &&& d[0] != '-'
}

proof fn lemma_domain_chars_are_ascii(d: &str)
    requires
        forall|i: int| 0 <= i < d@.len() ==> #[trigger] is_domain_char(d@[i]),
    ensures
        d.spec_bytes().len() == d@.len(),
{
    assert(vstd::utf8::is_ascii_chars(d@)) by {
        assert forall|i: int| 0 <= i < d@.len() implies '\0' <= #[trigger] d@[i] <= '\u{7f}' by {
            assert(is_domain_char(d@[i]));
        }
    }
    vstd::utf8::is_ascii_chars_encode_utf8(d@);
}

/// Whether `d` may be used as a brain's domain. An allowlist rather than a
/// denylist: the domain reaches an argument parser and log lines.
pub fn valid_domain(d: &str) -> (r: bool)
    ensures
        r == is_valid_domain(d@),
{
    if d.is_empty() {
        return false;
    }
    if d.len() > MAX_DOMAIN_LEN {
        proof {
            if is_valid_domain(d@) {
                lemma_domain_chars_are_ascii(d);
            }
        }
        return false;
    }
    let cs = chars_of(d);
    let mut i: usize = 0;
    while i < cs.len()
        invariant
            i <= cs@.len(),
            cs@ == d@,
            forall|j: int| 0 <= j < i ==> #[trigger] is_domain_char(cs@[j]),
        decreases cs.len() - i,
    {
        let c = cs[i];
        if !(is_ascii_alphanumeric(c) || c == '_' || c == '-') {
            assert(!is_domain_char(d@[i as int]));
            return false;
        }
        i = i + 1;
    }
    proof {
        lemma_domain_chars_are_ascii(d);
    }
    cs[0] != '-'
}

/// Why a spawn request was refused.
pub enum SpawnRefusal {
    /// The body names no domain.
    MissingDomain,
    /// The domain is not a valid domain name.
    InvalidDomain,
    /// A brain with this domain is already running.
    AlreadyExists(String),
    /// `MAX_LIVE_BRAINS` brains are already running.
    TooManyBrains,
    /// Every port from `FIRST_BRAIN_PORT` to `MAX_BRAIN_PORT` is taken.
    NoFreePort,
    /// The sandbox refused to start the process (its reason).
    SpawnRefused(String),
}

pub open spec fn invalid_domain_text() -> Seq<char> {
    "domain invalide: alphanum\u{e9}rique, '_' et '-' uniquement, 1-64 caract\u{e8}res, ne peut pas commencer par '-'"@
}

/// The text each refusal is reported with. The rejected domain of an
/// invalid request is not echoed: it is attacker-controlled and the answer
/// is shown in a browser.
pub open spec fn refusal_text(r: SpawnRefusal) -> Seq<char> {
    match r {
        SpawnRefusal::MissingDomain => "domain requis"@,
        SpawnRefusal::InvalidDomain => invalid_domain_text(),
        SpawnRefusal::AlreadyExists(d) => "Brain '"@ + d@ + "' existe d\u{e9}j\u{e0}"@,
        SpawnRefusal::TooManyBrains => "limite de "@ + decimal(MAX_LIVE_BRAINS as nat)
            + " brains atteinte \u{2014} arr\u{ea}ter un brain avant d'en lancer un autre"@,
        SpawnRefusal::NoFreePort => "aucun port libre dans la plage 9016-9999"@,
        SpawnRefusal::SpawnRefused(e) => "spawn refus\u{e9}: "@ + e@,
    }
}

/// The answer to a refused request: `{"ok": false, "error": text}`.
pub open spec fn refusal_model(r: SpawnRefusal) -> Json {
    obj(seq![("ok"@, Json::Bool(false)), ("error"@, Json::Str(refusal_text(r)))])
}

impl SpawnRefusal {
    /// The text this refusal is reported with.
    pub fn message(&self) -> (r: String)
        ensures
            r@ == refusal_text(*self),
    {
        match self {
            SpawnRefusal::MissingDomain => String::from_str("domain requis"),
            SpawnRefusal::InvalidDomain => String::from_str(
                "domain invalide: alphanum\u{e9}rique, '_' et '-' uniquement, 1-64 caract\u{e8}res, ne peut pas commencer par '-'",
            ),
            SpawnRefusal::AlreadyExists(d) => {
                let mut t = String::from_str("Brain '");
                t.append(d.as_str());
                t.append("' existe d\u{e9}j\u{e0}");
                t
            },
            SpawnRefusal::TooManyBrains => {
                let mut t = String::from_str("limite de ");
                push_decimal(&mut t, MAX_LIVE_BRAINS as u64);
                t.append(" brains atteinte \u{2014} arr\u{ea}ter un brain avant d'en lancer un autre");
                t
            },
            SpawnRefusal::NoFreePort => String::from_str("aucun port libre dans la plage 9016-9999"),
            SpawnRefusal::SpawnRefused(e) => {
                let mut t = String::from_str("spawn refus\u{e9}: ");
                t.append(e.as_str());
                t
            },
        }
    }

    /// The answer to a request refused for this reason.
    pub fn response(&self) -> (r: JsonValue)
        ensures
            r@ == refusal_model(*self),
    {
        obj2("ok", JsonValue::Bool(false), "error", JsonValue::Str(self.message()))
    }
}

/// The domain a request body names: its `domain` member when that is a
/// string, else the empty string.
pub open spec fn requested_domain(body: Json) -> Seq<char> {
    match text_of(member(body, "domain"@)) {
        Some(d) => d,
        None => Seq::empty(),
    }
}

/// The domain a request body names: its `domain` member when that is a
/// string, else the empty string.
pub fn spawn_domain(body: &JsonValue) -> (r: String)
    ensures
        r@ == requested_domain(body@),
{
    match body.get("domain") {
        Some(v) => match v.as_text() {
            Some(t) => t.clone(),
            None => String::new(),
        },
        None => String::new(),
    }
}

/// The refusal a requested domain gets before any brain is looked up: none
/// when it is a valid domain name.
pub open spec fn domain_refusal(d: Seq<char>) -> Option<SpawnRefusal> {
    if d.len() == 0 {
        Some(SpawnRefusal::MissingDomain)
    } else if !is_valid_domain(d) {
        Some(SpawnRefusal::InvalidDomain)
    } else {
        None
    }
}

/// Checks a requested domain: an empty one is missing, an invalid one is
/// refused.
pub fn check_spawn_domain(domain: &String) -> (r: Result<(), SpawnRefusal>)
    ensures
        match domain_refusal(domain@) {
            Some(SpawnRefusal::MissingDomain) => r matches Err(SpawnRefusal::MissingDomain),
            Some(SpawnRefusal::InvalidDomain) => r matches Err(SpawnRefusal::InvalidDomain),
            Some(_) => false,
            None => r is Ok,
        },
{
    if domain.as_str().is_empty() {
        return Err(SpawnRefusal::MissingDomain);
    }
    if !valid_domain(domain.as_str()) {
        return Err(SpawnRefusal::InvalidDomain);
    }
    Ok(())
}

/// Whether `port` is among `used`.
fn port_in_use(used: &Vec<u16>, port: u16) -> (r: bool)
    ensures
        r == used@.contains(port),
{
    let mut i: usize = 0;
    while i < used.len()
        invariant
            i <= used@.len(),
            forall|j: int| 0 <= j < i ==> used@[j] != port,
        decreases used.len() - i,
    {
        if used[i] == port {
            assert(used@[i as int] == port);
            return true;
        }
        i = i + 1;
    }
    false
}

/// `port` is the lowest port of the brain range that `used` leaves free.
pub open spec fn is_first_free_port(used: Seq<u16>, port: u16) -> bool {
    &&& FIRST_BRAIN_PORT <= port <= MAX_BRAIN_PORT
    &&& !used.contains(port)
    &&& forall|q: u16| FIRST_BRAIN_PORT <= q < port ==> used.contains(q)
}

/// Every port of the brain range is in `used`.
pub open spec fn brain_ports_exhausted(used: Seq<u16>) -> bool {
    forall|q: u16| FIRST_BRAIN_PORT <= q <= MAX_BRAIN_PORT ==> used.contains(q)
}

/// Picks the port of a new brain given the ports of the running ones:
/// refused when `MAX_LIVE_BRAINS` are running, else the lowest free port of
/// `FIRST_BRAIN_PORT..=MAX_BRAIN_PORT`, refused when there is none.
pub fn choose_brain_port(used: &Vec<u16>) -> (r: Result<u16, SpawnRefusal>)
    ensures
        used@.len() >= MAX_LIVE_BRAINS ==> r matches Err(SpawnRefusal::TooManyBrains),
        used@.len() < MAX_LIVE_BRAINS ==> match r {
            Ok(p) => is_first_free_port(used@, p),
            Err(SpawnRefusal::NoFreePort) => brain_ports_exhausted(used@),
            Err(_) => false,
        },
{
    if used.len() >= MAX_LIVE_BRAINS {
        return Err(SpawnRefusal::TooManyBrains);
    }
    let mut port: u16 = FIRST_BRAIN_PORT;
    while port_in_use(used, port)
        invariant
            FIRST_BRAIN_PORT <= port <= MAX_BRAIN_PORT,
            used@.len() < MAX_LIVE_BRAINS,
            forall|q: u16| FIRST_BRAIN_PORT <= q < port ==> used@.contains(q),
        decreases MAX_BRAIN_PORT - port,
    {
        if port >= MAX_BRAIN_PORT {
            assert forall|q: u16| FIRST_BRAIN_PORT <= q <= MAX_BRAIN_PORT implies used@.contains(
                q,
            ) by {
                if q < port {
                } else {
                    assert(q == port);
                }
            }
            return Err(SpawnRefusal::NoFreePort);
        }
        port = port + 1;
    }
    Ok(port)
}

/// The string members of `items`, in order.
pub open spec fn strings_of(items: Seq<Json>) -> Seq<Seq<char>>
    decreases items.len(),
{
    if items.len() == 0 {
        Seq::empty()
    } else {
        match items.last() {
            Json::Str(s) => strings_of(items.drop_last()).push(s),
            _ => strings_of(items.drop_last()),
        }
    }
}

/// The specialities a brain is started with: the strings of the body's
/// `speciality` array, or the domain alone when the body has no such array.
pub open spec fn requested_specialities(body: Json, domain: Seq<char>) -> Seq<Seq<char>> {
    match member(body, "speciality"@) {
        Some(Json::Array(items)) => strings_of(items),
        _ => seq![domain],
    }
}

/// The views of a list of strings.
pub open spec fn texts_of(v: Seq<String>) -> Seq<Seq<char>> {
    v.map_values(|s: String| s@)
}

/// The specialities a brain is started with: the strings of the body's
/// `speciality` array, or the domain alone when the body has no such array.
pub fn speciality_list(body: &JsonValue, domain: &String) -> (r: Vec<String>)
    ensures
        texts_of(r@) == requested_specialities(body@, domain@),
{
    match body.get("speciality") {
        Some(JsonValue::Array(items)) => {
            let mut out: Vec<String> = Vec::new();
            let mut i: usize = 0;
            proof {
                crate::json::lemma_json_models(items@);
            }
            while i < items.len()
                invariant
                    i <= items@.len(),
                    texts_of(out@) == strings_of(crate::json::json_models(items@.take(i as int))),
                decreases items.len() - i,
            {
                let ghost before = out@;
                let ghost prefix = crate::json::json_models(items@.take(i as int));
                assert(items@.take(i + 1).drop_last() =~= items@.take(i as int));
                let ghost next = crate::json::json_models(items@.take(i + 1));
                assert(next == prefix.push(items@[i as int]@));
                assert(next.drop_last() =~= prefix);
                match &items[i] {
                    JsonValue::Str(s) => {
                        out.push(s.clone());
                        assert(texts_of(out@) =~= texts_of(before).push(s@));
                    },
                    _ => {},
                }
                i = i + 1;
            }
            assert(items@.take(i as int) =~= items@);
            out
        },
        _ => {
            let out = vec![domain.clone()];
            assert(texts_of(out@) =~= seq![domain@]);
            out
        },
    }
}

/// One argument of a brain's command line: chosen by this route (a flag)
/// or taken from the request (a value, which the sandbox refuses when it
/// looks like a flag).
pub enum SpawnArg {
    Flag(String),
    Value(String),
}

/// The model of an argument: whether it came from the request, and its
/// text.
pub open spec fn arg_model(a: SpawnArg) -> (bool, Seq<char>) {
    match a {
        SpawnArg::Flag(s) => (false, s@),
        SpawnArg::Value(s) => (true, s@),
    }
}

pub open spec fn args_model(v: Seq<SpawnArg>) -> Seq<(bool, Seq<char>)> {
    v.map_values(|a: SpawnArg| arg_model(a))
}

/// `--speciality <s>` for every speciality, in order.
pub open spec fn speciality_args(specialities: Seq<Seq<char>>) -> Seq<(bool, Seq<char>)>
    decreases specialities.len(),
{
    if specialities.len() == 0 {
        Seq::empty()
    } else {
        speciality_args(specialities.drop_last()) + seq![
            (false, "--speciality"@),
            (true, specialities.last()),
        ]
    }
}

/// The arguments a brain is started with, after the interpreter: its
/// script, `--brain <domain>` and `--speciality <s>` for each speciality.
pub open spec fn brain_args_model(
    brain_dir: Seq<char>,
    domain: Seq<char>,
    specialities: Seq<Seq<char>>,
) -> Seq<(bool, Seq<char>)> {
    seq![(false, brain_dir + "/brain_v12.py"@), (false, "--brain"@), (true, domain)]
        + speciality_args(specialities)
}

/// The arguments a brain is started with, after the interpreter: its
/// script under `brain_dir`, `--brain <domain>` and `--speciality <s>` for
/// each speciality. The domain and the specialities arrived in the request
/// body, so they are values; everything else is a flag.
pub fn brain_args(brain_dir: &str, domain: &String, specialities: &Vec<String>) -> (r: Vec<
    SpawnArg,
>)
    ensures
        args_model(r@) == brain_args_model(brain_dir@, domain@, texts_of(specialities@)),
{
    let mut script = String::from_str(brain_dir);
    script.append("/brain_v12.py");
    let mut out: Vec<SpawnArg> = Vec::new();
    out.push(SpawnArg::Flag(script));
    out.push(SpawnArg::Flag(String::from_str("--brain")));
    out.push(SpawnArg::Value(domain.clone()));
    let ghost head = seq![
        (false, brain_dir@ + "/brain_v12.py"@),
        (false, "--brain"@),
        (true, domain@),
    ];
    assert(args_model(out@) =~= head);
    let mut i: usize = 0;
    while i < specialities.len()
        invariant
            i <= specialities@.len(),
            args_model(out@) == head + speciality_args(texts_of(specialities@.take(i as int))),
        decreases specialities.len() - i,
    {
        let ghost before = out@;
        out.push(SpawnArg::Flag(String::from_str("--speciality")));
        out.push(SpawnArg::Value(specialities[i].clone()));
        let ghost prev = texts_of(specialities@.take(i as int));
        let ghost next = texts_of(specialities@.take(i + 1));
        assert(next.drop_last() =~= prev);
        assert(next.last() == specialities@[i as int]@);
        assert(args_model(out@) =~= args_model(before) + seq![
            (false, "--speciality"@),
            (true, specialities@[i as int]@),
        ]);
        assert(speciality_args(next) == speciality_args(prev) + seq![
            (false, "--speciality"@),
            (true, specialities@[i as int]@),
        ]);
        assert(args_model(out@) =~= head + speciality_args(next));
        i = i + 1;
    }
    assert(specialities@.take(i as int) =~= specialities@);
    out
}

/// The text of the acceptance answer.
pub open spec fn started_text(domain: Seq<char>, port: u16) -> Seq<char> {
    "Spawn Brain-"@ + domain + " en cours sur :"@ + decimal(port as nat)
}

/// The answer to an accepted request.
pub open spec fn started_model(domain: Seq<char>, port: u16) -> Json {
    obj(
        seq![
            ("ok"@, Json::Bool(true)),
            ("domain"@, Json::Str(domain)),
            ("port"@, Json::Int(port as int)),
            ("msg"@, Json::Str(started_text(domain, port))),
            ("check"@, Json::Str("/api/mesh/status dans 30s"@)),
        ],
    )
}

/// The answer to a request whose brain was started on `port`.
pub fn spawn_started_response(domain: &String, port: u16) -> (r: JsonValue)
    ensures
        r@ == started_model(domain@, port),
{
    let mut msg = String::from_str("Spawn Brain-");
    msg.append(domain.as_str());
    msg.append(" en cours sur :");
    push_decimal(&mut msg, port as u64);
    obj5(
        "ok",
        JsonValue::Bool(true),
        "domain",
        JsonValue::Str(domain.clone()),
        "port",
        JsonValue::Int(port as i64),
        "msg",
        JsonValue::Str(msg),
        "check",
        JsonValue::text("/api/mesh/status dans 30s"),
    )
}

/// Seconds a new brain is given to start before the first health probe.
pub const BRAIN_STARTUP_WAIT_SECS: u64 = 8;

/// Seconds a health probe (and its HTTP client) waits for an answer.
pub const PROBE_TIMEOUT_SECS: u64 = 2;

/// Seconds between two health probes, and before stopping a brain.
pub const PROBE_INTERVAL_SECS: u64 = 5;

/// How many unanswered health probes a new brain gets before it is stopped.
pub const HEALTH_PROBES: u8 = 6;

/// What to do after a health probe of a new brain.
#[derive(Clone, Copy, Debug, PartialEq, Eq, Structural)]
pub enum HealthAction {
    /// The brain answered: it is up.
    Healthy,
    /// Wait, then probe again.
    ProbeAgain,
    /// Wait, then stop the brain's process group: it is not coming up.
    StopBrain,
}

/// The health check of a freshly spawned brain: it counts unanswered probes
/// and gives up after `HEALTH_PROBES` of them.
pub struct HealthCheck {
    failures: u8,
}

impl HealthCheck {
    #[verifier::type_invariant]
    spec fn bounded(&self) -> bool {
        self.failures <= HEALTH_PROBES
    }

    /// The unanswered probes so far.
    pub closed spec fn failures(&self) -> nat {
        self.failures as nat
    }

    /// A check that has seen no probe yet.
    pub fn new() -> (r: HealthCheck)
        ensures
            r.failures() == 0,
    {
        HealthCheck { failures: 0 }
    }

    /// Records the outcome of one probe and says what to do next.
    pub fn record_probe(&mut self, answered: bool) -> (r: HealthAction)
        ensures
            answered ==> r == HealthAction::Healthy && final(self).failures() == old(self).failures(),
            !answered ==> final(self).failures() == if old(self).failures() < HEALTH_PROBES {
                old(self).failures() + 1
            } else {
                old(self).failures()
            },
            !answered ==> (r == HealthAction::StopBrain <==> final(self).failures()
                >= HEALTH_PROBES),
            !answered ==> (r == HealthAction::ProbeAgain <==> final(self).failures()
                < HEALTH_PROBES),
    {
        proof {
            use_type_invariant(&*self);
        }
        if answered {
            return HealthAction::Healthy;
        }
        if self.failures < HEALTH_PROBES {
            self.failures = self.failures + 1;
        }
        if self.failures >= HEALTH_PROBES {
            HealthAction::StopBrain
        } else {
            HealthAction::ProbeAgain
        }
    }
}

/// With fewer than `MAX_LIVE_BRAINS` brains running, the port search always
/// finds a port: `NoFreePort` is unreachable through `choose_brain_port`.
pub proof fn lemma_a_port_is_always_found(used: Seq<u16>)
    requires
        used.len() < MAX_LIVE_BRAINS,
    ensures
        !brain_ports_exhausted(used),
{
    if brain_ports_exhausted(used) {
        let ints = used.map_values(|q: u16| q as int);
        let window = vstd::set_lib::set_int_range(FIRST_BRAIN_PORT as int, FIRST_BRAIN_PORT + 16);
        vstd::set_lib::lemma_int_range(FIRST_BRAIN_PORT as int, FIRST_BRAIN_PORT + 16);
        assert(window.subset_of(ints.to_set())) by {
            assert forall|x: int| window.contains(x) implies ints.to_set().contains(x) by {
                let q = x as u16;
                assert(used.contains(q));
                let j = choose|j: int| 0 <= j < used.len() && used[j] == q;
                assert(ints[j] == x);
            }
        }
        ints.lemma_cardinality_of_set();
        vstd::seq_lib::seq_to_set_is_finite(ints);
        vstd::set_lib::lemma_len_subset(window, ints.to_set());
        assert(false);
    }
}

/// Whether an argument of `brain_args_model` was chosen by the route.
pub open spec fn is_route_flag(brain_dir: Seq<char>, text: Seq<char>) -> bool {
    text == brain_dir + "/brain_v12.py"@ || text == "--brain"@ || text == "--speciality"@
}

proof fn lemma_speciality_args_flags(specialities: Seq<Seq<char>>)
    ensures
        forall|i: int|
            0 <= i < speciality_args(specialities).len() && !(#[trigger] speciality_args(
                specialities,
            )[i]).0 ==> speciality_args(specialities)[i].1 == "--speciality"@,
        speciality_args(specialities).len() == 2 * specialities.len(),
    decreases specialities.len(),
{
    if specialities.len() > 0 {
        lemma_speciality_args_flags(specialities.drop_last());
    }
}

/// Nothing taken from the request is ever passed as a flag: every flag of a
/// brain's command line is its script, `--brain` or `--speciality`, and the
/// domain is passed as a value.
pub proof fn lemma_request_text_is_never_a_flag(
    brain_dir: Seq<char>,
    domain: Seq<char>,
    specialities: Seq<Seq<char>>,
)
    ensures
        forall|i: int|
            0 <= i < brain_args_model(brain_dir, domain, specialities).len() && !(
            #[trigger] brain_args_model(brain_dir, domain, specialities)[i]).0 ==> is_route_flag(
                brain_dir,
                brain_args_model(brain_dir, domain, specialities)[i].1,
            ),
        brain_args_model(brain_dir, domain, specialities)[2] == (true, domain),
{
    lemma_speciality_args_flags(specialities);
    let head = seq![(false, brain_dir + "/brain_v12.py"@), (false, "--brain"@), (true, domain)];
    let all = brain_args_model(brain_dir, domain, specialities);
    assert forall|i: int| 0 <= i < all.len() && !(#[trigger] all[i]).0 implies is_route_flag(
        brain_dir,
        all[i].1,
    ) by {
        if i >= 3 {
            assert(all[i] == speciality_args(specialities)[i - 3]);
        }
    }
}

/// The member `ok` tells an accepted spawn from a refused one: the answer to
/// an accepted request has `ok == true` and names the domain, the port and
/// the started message; the answer to every refusal has `ok == false` and
/// carries the refusal's text under `error`.
pub proof fn lemma_ok_tells_acceptance_from_refusal(
    domain: Seq<char>,
    port: u16,
    refusal: SpawnRefusal,
)
    ensures
        member(started_model(domain, port), "ok"@) == Some(Json::Bool(true)),
        member(started_model(domain, port), "domain"@) == Some(Json::Str(domain)),
        member(started_model(domain, port), "port"@) == Some(Json::Int(port as int)),
        member(started_model(domain, port), "msg"@) == Some(
            Json::Str(started_text(domain, port)),
        ),
        member(refusal_model(refusal), "ok"@) == Some(Json::Bool(false)),
        member(refusal_model(refusal), "error"@) == Some(Json::Str(refusal_text(refusal))),
{
    reveal_strlit("ok");
    reveal_strlit("domain");
    reveal_strlit("port");
    reveal_strlit("msg");
    reveal_strlit("check");
    reveal_strlit("error");
    assert("ok"@[0] != "domain"@[0]);
    assert("ok"@[0] != "port"@[0]);
    assert("ok"@[0] != "msg"@[0]);
    assert("domain"@[0] != "port"@[0]);
    assert("domain"@[0] != "msg"@[0]);
    assert("port"@[0] != "msg"@[0]);
    assert("ok"@[0] != "error"@[0]);
    let started = seq![
        ("ok"@, Json::Bool(true)),
        ("domain"@, Json::Str(domain)),
        ("port"@, Json::Int(port as int)),
        ("msg"@, Json::Str(started_text(domain, port))),
        ("check"@, Json::Str("/api/mesh/status dans 30s"@)),
    ];
    assert(started_model(domain, port) == obj(started));
    lemma_lookup_finds(started, "ok"@, 0);
    lemma_lookup_finds(started, "domain"@, 1);
    lemma_lookup_finds(started, "port"@, 2);
    lemma_lookup_finds(started, "msg"@, 3);
    let refused = seq![("ok"@, Json::Bool(false)), ("error"@, Json::Str(refusal_text(refusal)))];
    assert(refusal_model(refusal) == obj(refused));
    lemma_lookup_finds(refused, "ok"@, 0);
    lemma_lookup_finds(refused, "error"@, 1);
}

/// Decides a spawn request from its domain, whether a brain with that
/// domain already runs, and the ports of the running brains. The refusals
/// come in this order: a missing or invalid domain, an existing brain, the
/// `MAX_LIVE_BRAINS` ceiling; otherwise the lowest free port of the brain
/// range is answered (one always exists below the ceiling).
pub fn decide_spawn(domain: &String, brain_exists: bool, used_ports: &Vec<u16>) -> (r: Result<
    u16,
    SpawnRefusal,
>)
    ensures
        match domain_refusal(domain@) {
            Some(SpawnRefusal::MissingDomain) => r matches Err(SpawnRefusal::MissingDomain),
            Some(SpawnRefusal::InvalidDomain) => r matches Err(SpawnRefusal::InvalidDomain),
            Some(_) => false,
            None => if brain_exists {
                r matches Err(SpawnRefusal::AlreadyExists(d)) && d@ == domain@
            } else if used_ports@.len() >= MAX_LIVE_BRAINS {
                r matches Err(SpawnRefusal::TooManyBrains)
            } else {
                r matches Ok(p) && is_first_free_port(used_ports@, p)
            },
        },
{
    match check_spawn_domain(domain) {
        Err(refusal) => {
            return Err(refusal);
        },
        Ok(()) => {},
    }
    if brain_exists {
        return Err(SpawnRefusal::AlreadyExists(domain.clone()));
    }
    proof {
        if used_ports@.len() < MAX_LIVE_BRAINS {
            lemma_a_port_is_always_found(used_ports@);
        }
    }
    choose_brain_port(used_ports)
}

} // verus!
