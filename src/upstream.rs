use vstd::prelude::*;

verus! {

/// The path, below the upstream base, that chat completions are posted to.
pub open spec fn completions_path() -> Seq<char> {
    "/v1/chat/completions"@
}

/// `s` with every trailing `/` removed.
pub open spec fn trim_trailing_slashes(s: Seq<char>) -> Seq<char>
    decreases s.len(),
{
    if s.len() > 0 && s.last() == '/' {
        trim_trailing_slashes(s.drop_last())
    } else {
        s
    }
}

/// The URL that a chat request is posted to, for a configured upstream base.
pub open spec fn completions_url_of(base: Seq<char>) -> Seq<char> {
    trim_trailing_slashes(base) + completions_path()
}

/// Builds `{base}/v1/chat/completions`, with any trailing slashes of `base` stripped first.
pub fn completions_url(base: &str) -> (r: String)
    ensures
        r@ == completions_url_of(base@),
{
    let mut end: usize = base.unicode_len();
    assert(base@.subrange(0, end as int) =~= base@);
    loop
        invariant
            end <= base@.len(),
            trim_trailing_slashes(base@) == trim_trailing_slashes(base@.subrange(0, end as int)),
        ensures
            end <= base@.len(),
            trim_trailing_slashes(base@) == base@.subrange(0, end as int),
        decreases end,
    {
        if end == 0 {
            break;
        }
        if base.get_char(end - 1) != '/' {
            break;
        }
        proof {
            assert(base@.subrange(0, end as int).drop_last() =~= base@.subrange(0, end - 1));
        }
        end = end - 1;
    }
    let head = base.substring_char(0, end);
    String::from_str(head).concat("/v1/chat/completions")
}

/// Stripping one more trailing slash from a base leaves its URL unchanged:
/// `http://x/` and `http://x` are posted to the same address.
pub proof fn lemma_trailing_slash_ignored(base: Seq<char>)
    ensures
        completions_url_of(base.push('/')) == completions_url_of(base),
{
    assert(base.push('/').drop_last() =~= base);
}

/// Any number of trailing slashes on the base gives the same URL as none.
pub proof fn lemma_trailing_slashes_ignored(base: Seq<char>, n: nat)
    ensures
        completions_url_of(base + Seq::new(n, |i: int| '/')) == completions_url_of(base),
    decreases n,
{
    if n > 0 {
        let m = (n - 1) as nat;
        let longer = base + Seq::new(n, |i: int| '/');
        let shorter = base + Seq::new(m, |i: int| '/');
        assert(longer =~= shorter.push('/'));
        lemma_trailing_slash_ignored(shorter);
        lemma_trailing_slashes_ignored(base, m);
    } else {
        assert(base + Seq::new(0, |i: int| '/') =~= base);
    }
}

} // verus!
