//! Root-domain detection for customer hostnames, including multi-part TLDs.
use vstd::prelude::*;
use crate::text::{
    chars_of, ends_with, owned, seq_ends_with, seq_starts_with, starts_with, contains_char,
    to_lowercase, unicode_lowercase,
};

verus! {

// ---------------------------------------------------------------------------
// Labels of a hostname
// ---------------------------------------------------------------------------

/// `s` split at every '.', as `str::split('.')` yields the pieces.
pub open spec fn split_dots(s: Seq<char>) -> Seq<Seq<char>>
    decreases s.len(),
{
    if s.len() == 0 {
        seq![Seq::<char>::empty()]
    } else {
        let r = split_dots(s.drop_last());
        if s.last() == '.' {
            r.push(Seq::<char>::empty())
        } else {
            r.update(r.len() - 1, r.last().push(s.last()))
        }
    }
}

/// Pieces joined with '.' between them, as `join(".")` builds the text.
pub open spec fn join_dots(parts: Seq<Seq<char>>) -> Seq<char>
    decreases parts.len(),
{
    if parts.len() == 0 {
        Seq::empty()
    } else if parts.len() == 1 {
        parts[0]
    } else {
        join_dots(parts.drop_last()) + seq!['.'] + parts.last()
    }
}

/// The characters of each piece.
pub open spec fn label_views(parts: Seq<Vec<char>>) -> Seq<Seq<char>> {
    parts.map_values(|v: Vec<char>| v@)
}

/// Splitting always yields at least one piece.
pub proof fn lemma_split_nonempty(s: Seq<char>)
    ensures
        split_dots(s).len() >= 1,
    decreases s.len(),
{
    if s.len() > 0 {
        lemma_split_nonempty(s.drop_last());
    }
}

/// The pieces of `s` between its dots.
pub fn split_labels(s: &str) -> (parts: Vec<Vec<char>>)
    ensures
        label_views(parts@) == split_dots(s@),
{
    let v: Vec<char> = chars_of(s);
    let mut parts: Vec<Vec<char>> = Vec::new();
    parts.push(Vec::new());
    let mut i: usize = 0;
    assert(label_views(parts@) =~= split_dots(s@.subrange(0, 0)));
    while i < v.len()
        invariant
            v@ == s@,
            i <= v.len(),
            label_views(parts@) == split_dots(s@.subrange(0, i as int)),
            parts@.len() >= 1,
        decreases v.len() - i,
    {
        let c: char = v[i];
        let ghost prev = label_views(parts@);
        assert(s@.subrange(0, i + 1).drop_last() =~= s@.subrange(0, i as int));
        assert(s@.subrange(0, i + 1).last() == c);
        if c == '.' {
            parts.push(Vec::new());
            assert(label_views(parts@) =~= prev.push(Seq::<char>::empty()));
        } else {
            let mut last: Vec<char> = parts.pop().unwrap();
            assert(last@ == prev.last());
            last.push(c);
            parts.push(last);
            assert(label_views(parts@) =~= prev.update(prev.len() - 1, prev.last().push(c)));
        }
        i = i + 1;
    }
    assert(s@.subrange(0, v.len() as int) =~= s@);
    parts
}

/// The pieces `parts[from..]` joined with '.'.
pub fn join_labels_from(parts: &Vec<Vec<char>>, from: usize) -> (r: String)
    requires
        from < parts@.len(),
    ensures
        r@ == join_dots(label_views(parts@).subrange(from as int, parts@.len() as int)),
{
    let ghost dv = label_views(parts@);
    let mut out: Vec<char> = Vec::new();
    let mut i: usize = from;
    while i < parts.len()
        invariant
            dv == label_views(parts@),
            from <= i <= parts@.len(),
            i == from ==> out@.len() == 0,
            i > from ==> out@ == join_dots(dv.subrange(from as int, i as int)),
        decreases parts@.len() - i,
    {
        let ghost before = out@;
        if i > from {
            out.push('.');
        }
        let part: &Vec<char> = &parts[i];
        let mut k: usize = 0;
        while k < part.len()
            invariant
                k <= part@.len(),
                i > from ==> out@ == before + seq!['.'] + part@.subrange(0, k as int),
                i == from ==> out@ == part@.subrange(0, k as int),
            decreases part@.len() - k,
        {
            out.push(part[k]);
            k = k + 1;
        }
        assert(part@.subrange(0, part@.len() as int) =~= part@);
        assert(dv[i as int] == part@);
        assert(dv.subrange(from as int, i + 1).drop_last() =~= dv.subrange(from as int, i as int));
        if i == from {
            assert(out@ =~= join_dots(dv.subrange(from as int, i + 1)));
        }
        i = i + 1;
    }
    crate::text::string_from_chars(&out)
}

// ---------------------------------------------------------------------------
// Multi-part TLDs
// ---------------------------------------------------------------------------

/// Multi-part TLDs that require special handling.
pub open spec fn multi_part_tlds() -> Seq<Seq<char>> {
    seq!["co.uk"@, "com.au"@, "co.nz"@, "com.br"@, "co.jp"@, "org.uk"@, "net.au"@, "co.za"@]
}

fn multi_part_tld_list() -> (r: &'static [&'static str])
    ensures
        r@.len() == multi_part_tlds().len(),
        forall|i: int| 0 <= i < r@.len() ==> r@[i]@ == multi_part_tlds()[i],
{
    let r: &'static [&'static str] = &["co.uk", "com.au", "co.nz", "com.br", "co.jp", "org.uk", "net.au", "co.za"];
    assert(r@.len() == 8);
    r
}

/// Whether `lower` ends with one of `tlds`.
pub open spec fn ends_with_any(lower: Seq<char>, tlds: Seq<Seq<char>>) -> bool {
    exists|i: int| 0 <= i < tlds.len() && seq_ends_with(lower, #[trigger] tlds[i])
}

/// Whether `lower` ends with one of the listed TLDs.
pub fn ends_with_listed(lower: &str, tlds: &[&'static str], ghost_tlds: Ghost<Seq<Seq<char>>>) -> (r: bool)
    requires
        tlds@.len() == ghost_tlds@.len(),
        forall|i: int| 0 <= i < tlds@.len() ==> tlds@[i]@ == ghost_tlds@[i],
    ensures
        r == ends_with_any(lower@, ghost_tlds@),
{
    let mut i: usize = 0;
    while i < tlds.len()
        invariant
            i <= tlds@.len(),
            tlds@.len() == ghost_tlds@.len(),
            forall|k: int| 0 <= k < tlds@.len() ==> tlds@[k]@ == ghost_tlds@[k],
            forall|k: int| 0 <= k < i ==> !seq_ends_with(lower@, #[trigger] ghost_tlds@[k]),
        decreases tlds@.len() - i,
    {
        if ends_with(lower, tlds[i]) {
            assert(seq_ends_with(lower@, ghost_tlds@[i as int]));
            return true;
        }
        i = i + 1;
    }
    false
}

// ---------------------------------------------------------------------------
// Root domains
// ---------------------------------------------------------------------------

/// Whether a domain is a root domain, given its labels' count and whether its
/// lowercase form ends with a multi-part TLD.
pub open spec fn root_domain_rule(label_count: int, multi_part: bool) -> bool {
    if label_count < 2 {
        false
    } else if multi_part {
        label_count == 3
    } else {
        label_count == 2
    }
}

/// `is_root_domain` once the domain has been lowercased: `lower` must be the
/// Unicode lowercase form of `domain`.
pub fn root_domain_check(domain: &str, lower: &str, tlds: &[&'static str], ghost_tlds: Ghost<Seq<Seq<char>>>) -> (r: bool)
    requires
        tlds@.len() == ghost_tlds@.len(),
        forall|i: int| 0 <= i < tlds@.len() ==> tlds@[i]@ == ghost_tlds@[i],
    ensures
        r == root_domain_rule(split_dots(domain@).len() as int, ends_with_any(lower@, ghost_tlds@)),
{
    let parts: Vec<Vec<char>> = split_labels(domain);
    // Must have at least 2 parts (name + TLD)
    if parts.len() < 2 {
        return false;
    }
    if ends_with_listed(lower, tlds, ghost_tlds) {
        // For multi-part TLDs, root domain has exactly 3 parts
        return parts.len() == 3;
    }
    // For standard TLDs, root domain has exactly 2 parts
    parts.len() == 2
}

/// Check if a domain is a root domain (not a subdomain)
/// Handles multi-part TLDs like .co.uk, .com.au, etc.
pub fn is_root_domain(domain: &str) -> (r: bool)
    ensures
        r == root_domain_rule(
            split_dots(domain@).len() as int,
            ends_with_any(unicode_lowercase(domain@), multi_part_tlds()),
        ),
{
    let lower: String = to_lowercase(domain);
    root_domain_check(domain, lower.as_str(), multi_part_tld_list(), Ghost(multi_part_tlds()))
}

/// The root domain of a hostname, given its labels and whether its lowercase form
/// ends with a multi-part TLD: the last three labels under a multi-part TLD, else
/// the last two, else the hostname itself.
pub open spec fn root_domain_of(hostname: Seq<char>, multi_part: bool) -> Seq<char> {
    let parts = split_dots(hostname);
    let n = parts.len() as int;
    if multi_part && n >= 3 {
        join_dots(parts.subrange(n - 3, n))
    } else if n >= 2 {
        join_dots(parts.subrange(n - 2, n))
    } else {
        hostname
    }
}

/// `get_root_domain` once the hostname has been lowercased: `lower` must be the
/// Unicode lowercase form of `hostname`.
pub fn root_domain_given_lowercase(hostname: &str, lower: &str) -> (r: String)
    ensures
        r@ == root_domain_of(hostname@, ends_with_any(lower@, multi_part_tlds())),
{
    let parts: Vec<Vec<char>> = split_labels(hostname);
    proof {
        lemma_split_nonempty(hostname@);
    }
    // Handle multi-part TLDs (each of them has two labels)
    if parts.len() >= 3 && ends_with_listed(lower, multi_part_tld_list(), Ghost(multi_part_tlds())) {
        return join_labels_from(&parts, parts.len() - 3);
    }
    // Standard TLDs: take last 2 parts
    if parts.len() >= 2 {
        return join_labels_from(&parts, parts.len() - 2);
    }
    // Fallback: return as-is
    owned(hostname)
}

/// Extract the root domain from any hostname
/// e.g., "login.example.com" -> "example.com"
/// e.g., "app.staging.example.co.uk" -> "example.co.uk"
pub fn get_root_domain(hostname: &str) -> (r: String)
    ensures
        r@ == root_domain_of(hostname@, ends_with_any(unicode_lowercase(hostname@), multi_part_tlds())),
{
    let lower: String = to_lowercase(hostname);
    root_domain_given_lowercase(hostname, lower.as_str())
}

/// The domain a `reauth.` hostname serves: the rest of the hostname when it still
/// holds a dot, else the hostname unchanged.
pub open spec fn reauth_root(hostname: Seq<char>) -> Seq<char> {
    let prefix = "reauth."@;
    if seq_starts_with(hostname, prefix) && hostname.subrange(
        prefix.len() as int,
        hostname.len() as int,
    ).contains('.') {
        hostname.subrange(prefix.len() as int, hostname.len() as int)
    } else {
        hostname
    }
}

/// Extract root domain from a reauth.* hostname
/// e.g., "reauth.example.com" -> "example.com"
/// Special case: "reauth.dev" stays as "reauth.dev" (it's the actual domain)
pub fn extract_root_from_reauth_hostname(hostname: &str) -> (r: String)
    ensures
        r@ == reauth_root(hostname@),
{
    if starts_with(hostname, "reauth.") {
        let v: Vec<char> = chars_of(hostname);
        let p: Vec<char> = chars_of("reauth.");
        let remainder: String = crate::text::string_from_char_range(&v, p.len(), v.len());
        // Only strip if remainder is a valid domain (contains at least one dot)
        // This prevents "reauth.dev" from becoming "dev"
        if contains_char(remainder.as_str(), '.') {
            remainder
        } else {
            owned(hostname)
        }
    } else {
        owned(hostname)
    }
}

/// Stripping the `reauth.` prefix either leaves the hostname as it was or yields
/// a proper suffix of it that still holds a dot.
pub proof fn lemma_reauth_root_is_suffix(hostname: Seq<char>)
    ensures
        reauth_root(hostname) == hostname || (seq_ends_with(hostname, reauth_root(hostname))
            && reauth_root(hostname).len() < hostname.len() && reauth_root(hostname).contains(
            '.',
        )),
{
    reveal_strlit("reauth.");
    let r = reauth_root(hostname);
    if r != hostname {
        assert(hostname.subrange(hostname.len() - r.len(), hostname.len() as int) =~= r);
    }
}

/// A hostname's root domain is made of its last labels: the last two, or the last
/// three under a multi-part TLD, so it never holds more labels than that.
pub proof fn lemma_root_domain_labels(hostname: Seq<char>, multi_part: bool)
    ensures
        split_dots(hostname).len() >= 2 ==> root_domain_of(hostname, multi_part) == join_dots(
            split_dots(hostname).subrange(
                split_dots(hostname).len() - (if multi_part && split_dots(hostname).len() >= 3 {
                    3int
                } else {
                    2int
                }),
                split_dots(hostname).len() as int,
            ),
        ),
        split_dots(hostname).len() < 2 ==> root_domain_of(hostname, multi_part) == hostname,
{
}

/// Under each documented multi-part TLD (co.uk, com.au, co.nz, com.br, co.jp,
/// org.uk, net.au, co.za) the root domain of a hostname of three or more labels
/// is its last three labels: login.example.com.br has root example.com.br.
pub proof fn lemma_multi_part_tlds_keep_three_labels(hostname: Seq<char>, lower: Seq<char>)
    requires
        split_dots(hostname).len() >= 3,
        seq_ends_with(lower, "co.uk"@) || seq_ends_with(lower, "com.au"@) || seq_ends_with(lower, "co.nz"@)
            || seq_ends_with(lower, "com.br"@) || seq_ends_with(lower, "co.jp"@) || seq_ends_with(
            lower,
            "org.uk"@,
        ) || seq_ends_with(lower, "net.au"@) || seq_ends_with(lower, "co.za"@),
    ensures
        ends_with_any(lower, multi_part_tlds()),
        root_domain_of(hostname, ends_with_any(lower, multi_part_tlds())) == join_dots(
            split_dots(hostname).subrange(split_dots(hostname).len() - 3, split_dots(hostname).len() as int),
        ),
        root_domain_rule(split_dots(hostname).len() as int, ends_with_any(lower, multi_part_tlds()))
            <==> split_dots(hostname).len() == 3,
{
    let t = multi_part_tlds();
    if seq_ends_with(lower, "co.uk"@) {
        assert(seq_ends_with(lower, t[0]));
    } else if seq_ends_with(lower, "com.au"@) {
        assert(seq_ends_with(lower, t[1]));
    } else if seq_ends_with(lower, "co.nz"@) {
        assert(seq_ends_with(lower, t[2]));
    } else if seq_ends_with(lower, "com.br"@) {
        assert(seq_ends_with(lower, t[3]));
    } else if seq_ends_with(lower, "co.jp"@) {
        assert(seq_ends_with(lower, t[4]));
    } else if seq_ends_with(lower, "org.uk"@) {
        assert(seq_ends_with(lower, t[5]));
    } else if seq_ends_with(lower, "net.au"@) {
        assert(seq_ends_with(lower, t[6]));
    } else {
        assert(seq_ends_with(lower, t[7]));
    }
}

} // verus!
