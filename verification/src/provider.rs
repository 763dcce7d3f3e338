//! Model-provider endpoints of the coding CLI.

use vstd::prelude::*;
use crate::text::chars_of;

verus! {

/// The model providers the harness can talk to.
#[derive(Clone, Copy, Debug, PartialEq, Eq, Structural)]
pub enum ProviderKind {
    Ollama,
    OpenAI,
    Anthropic,
}

/// The host root each provider is reached at by default.
pub open spec fn default_url(provider: ProviderKind) -> Seq<char> {
    match provider {
        ProviderKind::Ollama => "http://127.0.0.1:11434"@,
        ProviderKind::OpenAI => "https://api.openai.com"@,
        ProviderKind::Anthropic => "https://api.anthropic.com"@,
    }
}

/// Provider hosts used by the coding CLI. The concrete providers append
/// their protocol path (`/v1/...`) themselves, so callers pass the host
/// root.
pub fn default_provider_base_url(provider: ProviderKind) -> (r: &'static str)
    ensures
        r@ == default_url(provider),
{
    match provider {
        ProviderKind::Ollama => "http://127.0.0.1:11434",
        ProviderKind::OpenAI => "https://api.openai.com",
        ProviderKind::Anthropic => "https://api.anthropic.com",
    }
}

/// `s` without its trailing run of `/`.
pub open spec fn trim_end_slashes(s: Seq<char>) -> Seq<char>
    decreases s.len(),
{
    if s.len() > 0 && s.last() == '/' {
        trim_end_slashes(s.drop_last())
    } else {
        s
    }
}

/// Whether `s` ends with `/v1`.
pub open spec fn ends_with_v1(s: Seq<char>) -> bool {
    &&& s.len() >= 3
    &&& s[s.len() - 3] == '/'
    &&& s[s.len() - 2] == 'v'
    &&& s[s.len() - 1] == '1'
}

/// Whether the provider's adapter appends `/v1` itself.
pub open spec fn appends_v1(provider: ProviderKind) -> bool {
    provider == ProviderKind::OpenAI || provider == ProviderKind::Anthropic
}

/// The host-root form of a provider URL: trailing slashes removed and, for
/// providers whose adapter appends `/v1` itself, every trailing `/v1`
/// removed along with the slashes before it, so that the adapter never
/// builds `/v1/v1/...`.
pub open spec fn normalized_url(provider: ProviderKind, url: Seq<char>) -> Seq<char>
    decreases url.len(),
{
    let t = trim_end_slashes(url);
    if appends_v1(provider) && ends_with_v1(t) {
        proof {
            lemma_trim_end_slashes(url);
        }
        normalized_url(provider, t.subrange(0, t.len() - 3))
    } else {
        t
    }
}

/// The end of `trim_end_slashes(cs[..end])`.
fn trimmed_end(cs: &Vec<char>, end: usize) -> (k: usize)
    requires
        end <= cs@.len(),
    ensures
        k <= end,
        cs@.subrange(0, k as int) == trim_end_slashes(cs@.subrange(0, end as int)),
{
    let mut k = end;
    while k > 0 && cs[k - 1] == '/'
        invariant
            k <= end <= cs@.len(),
            trim_end_slashes(cs@.subrange(0, end as int)) == trim_end_slashes(
                cs@.subrange(0, k as int),
            ),
        decreases k,
    {
        assert(cs@.subrange(0, k as int).drop_last() =~= cs@.subrange(0, k - 1));
        k = k - 1;
    }
    k
}

/// Normalizes a user-supplied provider URL to the host-root form expected
/// by the provider adapters, so that a conventional OpenAI-compatible base
/// URL copied from another client does not end up as `/v1/v1/...`.
pub fn normalize_provider_base_url(provider: ProviderKind, base_url: &str) -> (r: String)
    ensures
        r@ == normalized_url(provider, base_url@),
        r@.len() == 0 || r@.last() != '/',
        appends_v1(provider) ==> !ends_with_v1(r@),
{
    let cs = chars_of(base_url);
    let ghost s = base_url@;
    assert(s.subrange(0, s.len() as int) =~= s);
    let mut k = trimmed_end(&cs, cs.len());
    proof {
        lemma_normalized_of_trimmed(provider, s);
        lemma_trim_end_slashes(s);
    }
    let strip = match provider {
        ProviderKind::OpenAI | ProviderKind::Anthropic => true,
        ProviderKind::Ollama => false,
    };
    while strip && k >= 3 && cs[k - 3] == '/' && cs[k - 2] == 'v' && cs[k - 1] == '1'
        invariant
            k <= cs@.len(),
            cs@ == s,
            strip == appends_v1(provider),
            normalized_url(provider, s) == normalized_url(provider, s.subrange(0, k as int)),
            trim_end_slashes(s.subrange(0, k as int)) == s.subrange(0, k as int),
        decreases k,
    {
        let ghost t = s.subrange(0, k as int);
        assert(t.subrange(0, t.len() - 3) =~= s.subrange(0, k - 3));
        assert(normalized_url(provider, t) == normalized_url(provider, s.subrange(0, k - 3)));
        let k2 = trimmed_end(&cs, k - 3);
        proof {
            lemma_normalized_of_trimmed(provider, s.subrange(0, k - 3));
            lemma_trim_end_slashes(s.subrange(0, k - 3));
        }
        k = k2;
    }
    proof {
        lemma_normalized_url_is_host_root(provider, s);
    }
    String::from_str(base_url.substring_char(0, k))
}

/// Normalizing ignores trailing slashes already.
proof fn lemma_normalized_of_trimmed(provider: ProviderKind, url: Seq<char>)
    ensures
        normalized_url(provider, trim_end_slashes(url)) == normalized_url(provider, url),
{
    lemma_trim_end_slashes(url);
}

/// Trimming leaves no trailing `/`, is idempotent and never lengthens.
pub proof fn lemma_trim_end_slashes(s: Seq<char>)
    ensures
        trim_end_slashes(s).len() == 0 || trim_end_slashes(s).last() != '/',
        trim_end_slashes(trim_end_slashes(s)) == trim_end_slashes(s),
        trim_end_slashes(s).len() <= s.len(),
    decreases s.len(),
{
    if s.len() > 0 && s.last() == '/' {
        lemma_trim_end_slashes(s.drop_last());
    }
}

/// A normalized provider URL never ends with `/`, and for a provider
/// whose adapter appends `/v1` it never ends with `/v1` either.
pub proof fn lemma_normalized_url_is_host_root(provider: ProviderKind, url: Seq<char>)
    ensures
        normalized_url(provider, url).len() == 0 || normalized_url(provider, url).last() != '/',
        appends_v1(provider) ==> !ends_with_v1(normalized_url(provider, url)),
        trim_end_slashes(normalized_url(provider, url)) == normalized_url(provider, url),
    decreases url.len(),
{
    let t = trim_end_slashes(url);
    lemma_trim_end_slashes(url);
    if appends_v1(provider) && ends_with_v1(t) {
        lemma_normalized_url_is_host_root(provider, t.subrange(0, t.len() - 3));
    }
}

/// Normalizing a normalized URL changes nothing.
pub proof fn lemma_normalize_is_idempotent(provider: ProviderKind, url: Seq<char>)
    ensures
        normalized_url(provider, normalized_url(provider, url)) == normalized_url(provider, url),
{
    lemma_normalized_url_is_host_root(provider, url);
}

/// The default host root of every provider is already in normalized form.
pub proof fn lemma_default_url_is_normalized(provider: ProviderKind)
    ensures
        normalized_url(provider, default_url(provider)) == default_url(provider),
{
    reveal_strlit("http://127.0.0.1:11434");
    reveal_strlit("https://api.openai.com");
    reveal_strlit("https://api.anthropic.com");
    let u = default_url(provider);
    assert(u.last() != '/');
    assert(trim_end_slashes(u) == u);
}

} // verus!
