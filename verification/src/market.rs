//! The marketplace's public key, as its REST endpoint returns it.

use vstd::prelude::*;

verus! {

/// Characters with the Unicode `White_Space` property.
pub open spec fn is_white_space(c: char) -> bool {
    ||| '\u{9}' <= c <= '\u{d}'
    ||| c == ' '
    ||| c == '\u{85}'
    ||| c == '\u{a0}'
    ||| c == '\u{1680}'
    ||| '\u{2000}' <= c <= '\u{200a}'
    ||| c == '\u{2028}'
    ||| c == '\u{2029}'
    ||| c == '\u{202f}'
    ||| c == '\u{205f}'
    ||| c == '\u{3000}'
}

/// `s` without its leading characters that satisfy `p`.
pub open spec fn drop_leading(s: Seq<char>, p: spec_fn(char) -> bool) -> Seq<char>
    decreases s.len(),
{
    if s.len() > 0 && p(s[0]) {
        drop_leading(s.drop_first(), p)
    } else {
        s
    }
}

/// `s` without its trailing characters that satisfy `p`.
pub open spec fn drop_trailing(s: Seq<char>, p: spec_fn(char) -> bool) -> Seq<char>
    decreases s.len(),
{
    if s.len() > 0 && p(s.last()) {
        drop_trailing(s.drop_last(), p)
    } else {
        s
    }
}

/// `s` without its leading and trailing characters that satisfy `p`.
pub open spec fn trimmed(s: Seq<char>, p: spec_fn(char) -> bool) -> Seq<char> {
    drop_trailing(drop_leading(s, p), p)
}

/// `str::trim`: the text without its leading and trailing white space, as
/// Unicode's `White_Space` property defines it.
#[verifier::external_body]
fn trim_white_space(s: &str) -> (res: &str)
    ensures
        res@ == trimmed(s@, |c: char| is_white_space(c)),
{
    s.trim()
}

/// `str::trim_matches` with the pattern `'"'`: the text without its leading
/// and trailing double quotes.
#[verifier::external_body]
fn trim_double_quotes(s: &str) -> (res: &str)
    ensures
        res@ == trimmed(s@, |c: char| c == '"'),
{
    s.trim_matches('"')
}

/// The key that the body of the endpoint's response gives: the body without
/// the white space around it, then without the double quotes around that.
pub open spec fn market_key_text(body: Seq<char>) -> Seq<char> {
    trimmed(trimmed(body, |c: char| is_white_space(c)), |c: char| c == '"')
}

/// Reads the public key from the body of the marketplace's response; a body
/// that holds nothing but white space and quotes is refused.
pub fn market_key_from_response(body: &str) -> (res: Result<String, String>)
    ensures
        market_key_text(body@).len() > 0 ==> (res matches Ok(key) && key@ == market_key_text(
            body@,
        )),
        market_key_text(body@).len() == 0 ==> (res matches Err(e) && e@
            == "Fetched public key is empty"@),
{
    let key = trim_double_quotes(trim_white_space(body));
    if key.unicode_len() == 0 {
        Err(String::from_str("Fetched public key is empty"))
    } else {
        Ok(key.to_string())
    }
}

/// The marketplace's public key, once it has been fetched.
pub struct MarketKeyCache {
    cached: Option<String>,
}

impl View for MarketKeyCache {
    type V = Option<Seq<char>>;

    /// The text of the cached key, if any.
    closed spec fn view(&self) -> Option<Seq<char>> {
        match self.cached {
            Some(key) => Some(key@),
            None => None,
        }
    }
}

impl MarketKeyCache {
    /// A cache that holds no key yet.
    pub fn new() -> (res: Self)
        ensures
            res@ is None,
    {
        MarketKeyCache { cached: None }
    }

    /// Caches `key`, replacing any key cached before.
    pub fn remember(&mut self, key: String)
        ensures
            final(self)@ == Some(key@),
    {
        self.cached = Some(key);
    }

    /// Forgets the cached key.
    pub fn forget(&mut self)
        ensures
            final(self)@ is None,
    {
        self.cached = None;
    }

    /// The marketplace's key: the cached one when there is one, without
    /// fetching; otherwise `fetch` is asked for the body of the endpoint's
    /// response (or the text of its failure), the key is read from the body,
    /// and a key that could be read is cached.
    pub fn get_or_fetch<F: FnOnce() -> Result<String, String>>(&mut self, fetch: F) -> (res: Result<
        String,
        String,
    >)
        requires
            call_requires(fetch, ()),
        ensures
            old(self)@ matches Some(key) ==> (res matches Ok(r) && r@ == key
                && final(self)@ == old(self)@),
            old(self)@ is None ==> exists|fetched: Result<String, String>|
                #[trigger] call_ensures(fetch, (), fetched) && match fetched {
                    Err(e) => res == Err::<String, String>(e) && final(self)@ is None,
                    Ok(body) => if market_key_text(body@).len() > 0 {
                        res matches Ok(r) && r@ == market_key_text(body@)
                            && final(self)@ == Some(r@)
                    } else {
                        res matches Err(e) && e@ == "Fetched public key is empty"@
                            && final(self)@ is None
                    },
                },
    {
        if let Some(key) = &self.cached {
            return Ok(key.clone());
        }
        let fetched = fetch();
        match fetched {
            Err(e) => Err(e),
            Ok(body) => {
                let key = market_key_from_response(body.as_str())?;
                self.cached = Some(key.clone());
                Ok(key)
            },
        }
    }
}

} // verus!
