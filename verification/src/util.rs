//! Small string and number helpers used by the interface layer.

use vstd::prelude::*;
use vstd::string::StrSliceExecFns;

verus! {

/// Number of decimal digits in `n`; the spec counts one digit for `0` too.
pub open spec fn spec_digits(n: nat) -> nat
    decreases n,
{
    if n < 10 {
        1
    } else {
        1 + spec_digits(n / 10)
    }
}

proof fn lemma_spec_digits_le(n: nat)
    requires
        n >= 1,
    ensures
        spec_digits(n) <= n,
    decreases n,
{
    if n >= 10 {
        lemma_spec_digits_le(n / 10);
    }
}

/// How many characters the decimal form of `n` takes.
pub fn digits(n: usize) -> (r: usize)
    ensures
        r == spec_digits(n as nat),
{
    if n == 0 {
        return 1;
    }
    let mut m: usize = n;
    let mut c: usize = 0;
    while m > 0
        invariant
            n >= 1,
            spec_digits(n as nat) == c + (if m > 0 {
                spec_digits(m as nat)
            } else {
                0
            }),
        decreases m,
    {
        proof {
            lemma_spec_digits_le(n as nat);
        }
        m = m / 10;
        c = c + 1;
    }
    c
}

/// The characters of `s`, in order, as a vector.
pub fn chars_of(s: &str) -> (v: Vec<char>)
    ensures
        v@ == s@,
{
    let n = s.unicode_len();
    let mut v: Vec<char> = Vec::new();
    let mut i: usize = 0;
    while i < n
        invariant
            n == s@.len(),
            i <= n,
            v@ == s@.take(i as int),
        decreases n - i,
    {
        let c = s.get_char(i);
        v.push(c);
        proof {
            assert(s@.take(i + 1 as int) =~= s@.take(i as int).push(s@[i as int]));
        }
        i = i + 1;
    }
    proof {
        assert(s@.take(n as int) =~= s@);
    }
    v
}

/// Relies on `String::from_iter` over `char`: the returned string holds
/// exactly the given characters, in order.
#[verifier::external_body]
pub(crate) fn chars_to_string(v: &Vec<char>) -> (r: String)
    ensures
        r@ == v@,
{
    v.iter().collect()
}

/// What decoding arbitrary bytes as text yields: the result depends on
/// the bytes alone.
pub uninterp spec fn lossy_utf8_of(bytes: Seq<u8>) -> Seq<char>;

/// Relies on `String::from_utf8_lossy`: the result is a function of the
/// bytes alone, and bytes that are all ASCII decode to themselves.
#[verifier::external_body]
fn from_utf8_lossy(bytes: &[u8]) -> (r: String)
    ensures
        r@ == lossy_utf8_of(bytes@),
        (forall|i: int| 0 <= i < bytes@.len() ==> bytes@[i] < 128) ==> r@ == bytes@.map_values(
            (|b: u8| b as char),
        ),
{
    String::from_utf8_lossy(bytes).into_owned()
}

/// The bytes decoded as text, invalid sequences replaced.
pub fn to_preview_string(bytes: &[u8]) -> (r: String)
    ensures
        r@ == lossy_utf8_of(bytes@),
        (forall|i: int| 0 <= i < bytes@.len() ==> bytes@[i] < 128) ==> r@ == bytes@.map_values(
            (|b: u8| b as char),
        ),
{
    from_utf8_lossy(bytes)
}

/// The characters `v[a..b]`, as a string.
pub fn chars_range_to_string(v: &Vec<char>, a: usize, b: usize) -> (r: String)
    requires
        a <= b <= v@.len(),
    ensures
        r@ == v@.subrange(a as int, b as int),
{
    let mut out: Vec<char> = Vec::new();
    let mut k: usize = a;
    while k < b
        invariant
            a <= k <= b <= v@.len(),
            out@ == v@.subrange(a as int, k as int),
        decreases b - k,
    {
        out.push(v[k]);
        proof {
            assert(v@.subrange(a as int, k + 1 as int) =~= v@.subrange(a as int, k as int).push(
                v@[k as int],
            ));
        }
        k = k + 1;
    }
    chars_to_string(&out)
}

/// True when `sp` occurs in `s` starting at character index `i`.
pub open spec fn matches_at(s: Seq<char>, sp: Seq<char>, i: int) -> bool {
    0 <= i && i + sp.len() <= s.len() && s.subrange(i, i + sp.len()) == sp
}

/// Split `s` at the first occurrence of `sp`: the part before the match,
/// the match itself, and the part after it; nothing when `sp` does not
/// occur in `s`.
pub fn split_str(s: &str, sp: &str) -> (r: Option<(String, String, String)>)
    ensures
        match r {
            Some(parts) => exists|i: int|
                {
                    &&& #[trigger] matches_at(s@, sp@, i)
                    &&& forall|j: int| 0 <= j < i ==> !matches_at(s@, sp@, j)
                    &&& parts.0@ == s@.take(i)
                    &&& parts.1@ == sp@
                    &&& parts.2@ == s@.skip(i + sp@.len())
                },
            None => forall|j: int| !matches_at(s@, sp@, j),
        },
{
    let sv = chars_of(s);
    let pv = chars_of(sp);
    let n = sv.len();
    let m = pv.len();
    if m > n {
        proof {
            assert forall|j: int| !matches_at(s@, sp@, j) by {}
        }
        return None;
    }
    let mut i: usize = 0;
    while i <= n - m
        invariant
            m <= n,
            n == s@.len() && sv@ == s@,
            m == sp@.len() && pv@ == sp@,
            i <= n - m + 1,
            forall|j: int| 0 <= j < i ==> !matches_at(s@, sp@, j),
        decreases n - m + 1 - i,
    {
        let mut k: usize = 0;
        while k < m && sv[i + k] == pv[k]
            invariant
                k <= m,
                i + m <= n,
                n == s@.len() && sv@ == s@,
                m == sp@.len() && pv@ == sp@,
                forall|l: int| 0 <= l < k ==> s@[i + l] == sp@[l],
            decreases m - k,
        {
            k = k + 1;
        }
        if k == m {
            proof {
                assert(s@.subrange(i as int, i as int + m) =~= sp@);
                assert(matches_at(s@, sp@, i as int));
            }
            let before = chars_range_to_string(&sv, 0, i);
            let matched = chars_range_to_string(&sv, i, i + m);
            let after = chars_range_to_string(&sv, i + m, n);
            proof {
                assert(before@ =~= s@.take(i as int));
                assert(after@ =~= s@.skip(i as int + m));
            }
            return Some((before, matched, after));
        }
        proof {
            let sub = s@.subrange(i as int, i as int + m);
            assert(s@[i + k as int] != sp@[k as int]);
            assert(sub[k as int] == s@[i + k as int]);
            assert(sub != sp@);
            assert(!matches_at(s@, sp@, i as int));
        }
        i = i + 1;
    }
    proof {
        assert forall|j: int| !matches_at(s@, sp@, j) by {
            if 0 <= j <= n - m {
                assert(!matches_at(s@, sp@, j));
            }
        }
    }
    None
}

/// The text without its trailing `'/'` characters.
pub open spec fn trimmed_slashes(s: Seq<char>) -> Seq<char>
    decreases s.len(),
{
    if s.len() > 0 && s.last() == '/' {
        trimmed_slashes(s.drop_last())
    } else {
        s
    }
}

/// A prefix argument normalized for the remote store: trailing slashes
/// are dropped.
pub fn process_prefix(prefix: Option<String>) -> (r: Option<String>)
    ensures
        match prefix {
            Some(p) => r matches Some(q) && q@ == trimmed_slashes(p@),
            None => r is None,
        },
{
    match prefix {
        Some(p) => {
            let mut cs = chars_of(p.as_str());
            let ghost orig = cs@;
            while cs.len() > 0 && cs[cs.len() - 1] == '/'
                invariant
                    trimmed_slashes(cs@) == trimmed_slashes(orig),
                decreases cs@.len(),
            {
                cs.pop();
            }
            Some(chars_to_string(&cs))
        },
        None => None,
    }
}

/// The byte length of a string: what `str::len` counts.
pub open spec fn byte_len(s: Seq<char>) -> int {
    vstd::utf8::encode_utf8(s).len() as int
}

/// The cost one word adds to a line: its byte length plus one delimiter.
pub open spec fn weight(ws: Seq<(String, usize)>, dlen: int, j: int) -> int {
    byte_len(ws[j].0@) + dlen
}

/// Total cost of the kept words among the first `i`, one delimiter each.
pub open spec fn kept_weight_to(ws: Seq<(String, usize)>, mask: Seq<bool>, dlen: int, i: int) -> int
    decreases i,
{
    if i <= 0 {
        0
    } else {
        kept_weight_to(ws, mask, dlen, i - 1) + (if 0 <= i - 1 < mask.len() && mask[i - 1] {
            weight(ws, dlen, i - 1)
        } else {
            0
        })
    }
}

/// The running line length the pruning loop tracks: kept words with one
/// delimiter each, minus the delimiter that the last word does not need.
pub open spec fn running_total(ws: Seq<(String, usize)>, mask: Seq<bool>, dlen: int) -> int {
    kept_weight_to(ws, mask, dlen, ws.len() as int) - dlen
}

/// How many entries of `mask` among the first `i` are still kept.
pub open spec fn count_true_to(mask: Seq<bool>, i: int) -> int
    decreases i,
{
    if i <= 0 {
        0
    } else {
        count_true_to(mask, i - 1) + (if 0 <= i - 1 < mask.len() && mask[i - 1] {
            1int
        } else {
            0
        })
    }
}

/// How many entries of `mask` are still kept.
pub open spec fn count_true(mask: Seq<bool>) -> int {
    count_true_to(mask, mask.len() as int)
}

/// The kept word that is pruned next: highest priority wins, the earlier
/// word among equal priorities; `-1` when nothing at `i` or later is kept.
pub open spec fn pick_from(ws: Seq<(String, usize)>, mask: Seq<bool>, i: int) -> int
    decreases ws.len() - i,
{
    if i < 0 || i >= ws.len() || mask.len() != ws.len() {
        -1
    } else {
        let rest = pick_from(ws, mask, i + 1);
        if !mask[i] {
            rest
        } else if rest == -1 {
            i
        } else if ws[rest].1 > ws[i].1 {
            rest
        } else {
            i
        }
    }
}

proof fn lemma_pick_from(ws: Seq<(String, usize)>, mask: Seq<bool>, i: int)
    ensures
        pick_from(ws, mask, i) == -1 || (i <= pick_from(ws, mask, i) < ws.len() && mask.len()
            == ws.len() && mask[pick_from(ws, mask, i)]),
    decreases ws.len() - i,
{
    if 0 <= i < ws.len() && mask.len() == ws.len() {
        lemma_pick_from(ws, mask, i + 1);
    }
}

proof fn lemma_count_nonneg(mask: Seq<bool>, i: int)
    ensures
        count_true_to(mask, i) >= 0,
    decreases i,
{
    if i > 0 {
        lemma_count_nonneg(mask, i - 1);
    }
}

proof fn lemma_count_update(mask: Seq<bool>, p: int, i: int)
    requires
        0 <= p < mask.len(),
        mask[p],
    ensures
        count_true_to(mask.update(p, false), i) == count_true_to(mask, i) - (if p < i {
            1int
        } else {
            0
        }),
    decreases i,
{
    if i > 0 {
        lemma_count_update(mask, p, i - 1);
    }
}

proof fn lemma_weight_update(ws: Seq<(String, usize)>, mask: Seq<bool>, dlen: int, p: int, i: int)
    requires
        0 <= p < mask.len(),
        mask[p],
    ensures
        kept_weight_to(ws, mask.update(p, false), dlen, i) == kept_weight_to(ws, mask, dlen, i) - (
        if p < i {
            weight(ws, dlen, p)
        } else {
            0
        }),
    decreases i,
{
    if i > 0 {
        lemma_weight_update(ws, mask, dlen, p, i - 1);
    }
}

proof fn lemma_weight_mono(ws: Seq<(String, usize)>, mask: Seq<bool>, dlen: int, i: int, j: int)
    requires
        dlen >= 0,
        i <= j,
    ensures
        kept_weight_to(ws, mask, dlen, i) <= kept_weight_to(ws, mask, dlen, j),
    decreases j - i,
{
    if i < j {
        lemma_weight_mono(ws, mask, dlen, i, j - 1);
    }
}

/// The mask the pruning process ends with: while the kept words overflow
/// `max`, the kept word of highest priority (the earliest among equals)
/// is dropped.
pub open spec fn prune_mask(ws: Seq<(String, usize)>, mask: Seq<bool>, max: int, dlen: int) -> Seq<
    bool,
>
    decreases count_true(mask),
    via prune_mask_dec
{
    if mask.len() != ws.len() || running_total(ws, mask, dlen) <= max {
        mask
    } else {
        let p = pick_from(ws, mask, 0);
        if p == -1 {
            mask
        } else {
            prune_mask(ws, mask.update(p, false), max, dlen)
        }
    }
}

#[via_fn]
proof fn prune_mask_dec(ws: Seq<(String, usize)>, mask: Seq<bool>, max: int, dlen: int) {
    lemma_count_nonneg(mask, mask.len() as int);
    if !(mask.len() != ws.len() || running_total(ws, mask, dlen) <= max) {
        let p = pick_from(ws, mask, 0);
        if p != -1 {
            lemma_pick_from(ws, mask, 0);
            lemma_count_update(mask, p, mask.len() as int);
            lemma_count_nonneg(mask.update(p, false), mask.len() as int);
        }
    }
}

/// The words that a mask keeps, in their original order.
pub open spec fn kept_to(ws: Seq<(String, usize)>, mask: Seq<bool>, i: int) -> Seq<String>
    decreases i,
{
    if i <= 0 {
        Seq::empty()
    } else {
        kept_to(ws, mask, i - 1) + (if 0 <= i - 1 < mask.len() && mask[i - 1] {
            seq![ws[i - 1].0]
        } else {
            Seq::empty()
        })
    }
}

/// Drop words, highest priority first, until what is left fits in
/// `max_width` with one `delimiter` between neighbours; the kept words
/// come back in their original order.
pub fn prune_strings_to_fit_width(
    words_with_priority: &[(String, usize)],
    max_width: usize,
    delimiter: &str,
) -> (r: Vec<String>)
    requires
        byte_len(delimiter@) <= usize::MAX,
        kept_weight_to(
            words_with_priority@,
            Seq::new(words_with_priority@.len(), |j: int| true),
            byte_len(delimiter@),
            words_with_priority@.len() as int,
        ) <= usize::MAX,
    ensures
        r@ == kept_to(
            words_with_priority@,
            prune_mask(
                words_with_priority@,
                Seq::new(words_with_priority@.len(), |j: int| true),
                max_width as int,
                byte_len(delimiter@),
            ),
            words_with_priority@.len() as int,
        ),
{
    let ghost ws = words_with_priority@;
    let n = words_with_priority.len();
    let dlen = delimiter.len();
    let ghost all = Seq::new(ws.len(), |j: int| true);
    if n == 0 {
        proof {
            assert(running_total(ws, all, dlen as int) == 0 - dlen);
        }
        return Vec::new();
    }
    // the initial mask keeps everything
    let mut mask: Vec<bool> = Vec::new();
    let mut total: usize = 0;
    let mut i: usize = 0;
    while i < n
        invariant
            n == ws.len(),
            ws == words_with_priority@,
            dlen == byte_len(delimiter@),
            kept_weight_to(ws, all, dlen as int, n as int) <= usize::MAX,
            all == Seq::new(ws.len(), |j: int| true),
            i <= n,
            mask@ == all.take(i as int),
            total == kept_weight_to(ws, all, dlen as int, i as int),
        decreases n - i,
    {
        proof {
            lemma_weight_mono(ws, all, dlen as int, i as int + 1, n as int);
        }
        let wl = words_with_priority[i].0.as_str().len();
        proof {
            assert(wl == byte_len(ws[i as int].0@));
        }
        total = total + wl;
        total = total + dlen;
        mask.push(true);
        proof {
            assert(mask@ =~= all.take(i as int + 1));
        }
        i = i + 1;
    }
    proof {
        assert(all.take(n as int) =~= all);
    }
    let mut running: i128 = total as i128 - (dlen as i128);
    loop
        invariant_except_break
            n == ws.len(),
            ws == words_with_priority@,
            dlen == byte_len(delimiter@),
            all == Seq::new(ws.len(), |j: int| true),
            mask@.len() == n,
            kept_weight_to(ws, all, dlen as int, n as int) <= usize::MAX,
            running == running_total(ws, mask@, dlen as int),
            prune_mask(ws, all, max_width as int, dlen as int) == prune_mask(
                ws,
                mask@,
                max_width as int,
                dlen as int,
            ),
        ensures
            n == ws.len(),
            ws == words_with_priority@,
            mask@.len() == n,
            prune_mask(ws, all, max_width as int, dlen as int) == mask@,
        decreases count_true(mask@),
    {
        if running <= max_width as i128 {
            break ;
        }
        // the kept word of highest priority, earliest among equals
        let mut best: Option<usize> = None;
        let mut j: usize = n;
        while j > 0
            invariant
                n == ws.len(),
                ws == words_with_priority@,
                mask@.len() == n,
                j <= n,
                match best {
                    Some(b) => pick_from(ws, mask@, j as int) == b && b < n && mask@[b as int],
                    None => pick_from(ws, mask@, j as int) == -1,
                },
            decreases j,
        {
            j = j - 1;
            if mask[j] {
                best = match best {
                    None => Some(j),
                    Some(b) => {
                        if words_with_priority[b].1 > words_with_priority[j].1 {
                            Some(b)
                        } else {
                            Some(j)
                        }
                    },
                };
            }
        }
        match best {
            None => {
                break ;
            },
            Some(p) => {
                proof {
                    lemma_count_nonneg(mask@, n as int);
                    lemma_count_nonneg(mask@.update(p as int, false), n as int);
                    lemma_count_update(mask@, p as int, n as int);
                    lemma_weight_update(ws, mask@, dlen as int, p as int, n as int);
                    lemma_weight_mono(ws, all, dlen as int, p as int + 1, n as int);
                    lemma_weight_mono(ws, all, dlen as int, 0, p as int);
                    assert(kept_weight_to(ws, all, dlen as int, p as int + 1) == kept_weight_to(
                        ws,
                        all,
                        dlen as int,
                        p as int,
                    ) + weight(ws, dlen as int, p as int));
                }
                let wl = words_with_priority[p].0.as_str().len();
                proof {
                    assert(wl == byte_len(ws[p as int].0@));
                }
                mask.set(p, false);
                running = running - (wl as i128);
                running = running - (dlen as i128);
            },
        }
    }
    // collect what the mask kept, in order
    let mut out: Vec<String> = Vec::new();
    let mut k: usize = 0;
    while k < n
        invariant
            n == ws.len(),
            ws == words_with_priority@,
            mask@.len() == n,
            k <= n,
            out@ == kept_to(ws, mask@, k as int),
        decreases n - k,
    {
        if mask[k] {
            out.push(words_with_priority[k].0.clone());
        }
        k = k + 1;
    }
    out
}

/// The cost, in bytes plus one delimiter each, of the words from `i` on.
pub open spec fn weights_from(words: Seq<String>, dlen: int, i: int) -> int
    decreases words.len() - i,
{
    if i < 0 || i >= words.len() {
        0
    } else {
        byte_len(words[i]@) + dlen + weights_from(words, dlen, i + 1)
    }
}

proof fn lemma_weights_nonneg(words: Seq<String>, dlen: int, i: int)
    requires
        dlen >= 0,
    ensures
        weights_from(words, dlen, i) >= 0,
    decreases words.len() - i,
{
    if 0 <= i < words.len() {
        lemma_weights_nonneg(words, dlen, i + 1);
    }
}

/// The grouping process from word `i` on, with `cur` the line being
/// filled and `cur_len` its running cost: a word that would overflow a
/// non-empty line starts the next one.
pub open spec fn groups_from(
    words: Seq<String>,
    i: int,
    cur: Seq<String>,
    cur_len: int,
    max: int,
    dlen: int,
) -> Seq<Seq<String>>
    decreases words.len() - i,
{
    if i < 0 || i >= words.len() {
        seq![cur]
    } else {
        let wl = byte_len(words[i]@);
        if cur.len() > 0 && cur_len + wl > max {
            seq![cur] + groups_from(words, i + 1, seq![words[i]], wl + dlen, max, dlen)
        } else {
            groups_from(words, i + 1, cur.push(words[i]), cur_len + wl + dlen, max, dlen)
        }
    }
}

/// Pack the words, in order, into groups that fit `max_width` with one
/// `delimiter` after each word; a word that does not fit a started group
/// opens the next one.  The last group is returned even when empty.
pub fn group_strings_to_fit_width(words: &[String], max_width: usize, delimiter: &str) -> (r: Vec<
    Vec<String>,
>)
    requires
        byte_len(delimiter@) <= usize::MAX,
        weights_from(words@, byte_len(delimiter@), 0) <= usize::MAX,
    ensures
        r@.map_values(|g: Vec<String>| g@) == groups_from(
            words@,
            0,
            Seq::<String>::empty(),
            0,
            max_width as int,
            byte_len(delimiter@),
        ),
{
    let ghost wsq = words@;
    let ghost dl = byte_len(delimiter@);
    let mut groups: Vec<Vec<String>> = Vec::new();
    let mut current_group: Vec<String> = Vec::new();
    let mut current_length: usize = 0;
    let delimiter_len = delimiter.len();
    let n = words.len();
    let mut i: usize = 0;
    proof {
        assert(groups@.map_values(|g: Vec<String>| g@) =~= Seq::<Seq<String>>::empty());
    }
    while i < n
        invariant
            n == wsq.len(),
            wsq == words@,
            delimiter_len == dl,
            dl == byte_len(delimiter@),
            dl >= 0,
            i <= n,
            current_length + weights_from(wsq, dl, i as int) <= usize::MAX,
            groups_from(wsq, 0, Seq::<String>::empty(), 0, max_width as int, dl) == groups@
                .map_values(|g: Vec<String>| g@) + groups_from(
                wsq,
                i as int,
                current_group@,
                current_length as int,
                max_width as int,
                dl,
            ),
        decreases n - i,
    {
        proof {
            lemma_weights_nonneg(wsq, dl, i as int + 1);
        }
        let wl = words[i].as_str().len();
        proof {
            assert(wl == byte_len(wsq[i as int]@));
        }
        let ghost gs0 = groups@.map_values(|g: Vec<String>| g@);
        let ghost cur0 = current_group@;
        let ghost cl0 = current_length as int;
        if current_group.len() > 0 && current_length + wl > max_width {
            groups.push(current_group);
            current_group = Vec::new();
            current_length = 0;
            proof {
                assert(groups@.map_values(|g: Vec<String>| g@) =~= gs0.push(cur0));
            }
        }
        current_length = current_length + wl;
        current_length = current_length + delimiter_len;
        current_group.push(words[i].clone());
        proof {
            if cur0.len() > 0 && cl0 + wl > max_width {
                assert(current_group@ =~= seq![wsq[i as int]]);
                assert(groups_from(wsq, i as int, cur0, cl0, max_width as int, dl) == seq![cur0]
                    + groups_from(
                    wsq,
                    i as int + 1,
                    seq![wsq[i as int]],
                    wl + dl,
                    max_width as int,
                    dl,
                ));
                assert(gs0 + (seq![cur0] + groups_from(
                    wsq,
                    i as int + 1,
                    current_group@,
                    current_length as int,
                    max_width as int,
                    dl,
                )) =~= gs0.push(cur0) + groups_from(
                    wsq,
                    i as int + 1,
                    current_group@,
                    current_length as int,
                    max_width as int,
                    dl,
                ));
            } else {
                assert(current_group@ =~= cur0.push(wsq[i as int]));
            }
        }
        i = i + 1;
    }
    let ghost gs1 = groups@.map_values(|g: Vec<String>| g@);
    let ghost cur1 = current_group@;
    groups.push(current_group);
    proof {
        assert(groups@.map_values(|g: Vec<String>| g@) =~= gs1.push(cur1));
        assert(gs1 + seq![cur1] =~= gs1.push(cur1));
    }
    groups
}

/// Index of the last `'.'` in `s`, or `-1` if there is none.
pub open spec fn spec_last_dot(s: Seq<char>) -> int
    decreases s.len(),
{
    if s.len() == 0 {
        -1
    } else if s.last() == '.' {
        s.len() - 1
    } else {
        spec_last_dot(s.drop_last())
    }
}

proof fn lemma_last_dot(s: Seq<char>)
    ensures
        -1 <= spec_last_dot(s) < s.len(),
        spec_last_dot(s) >= 0 ==> s[spec_last_dot(s)] == '.',
        forall|j: int| #![trigger s[j]] spec_last_dot(s) < j < s.len() ==> s[j] != '.',
    decreases s.len(),
{
    if s.len() > 0 {
        lemma_last_dot(s.drop_last());
        assert forall|j: int| #![trigger s[j]] spec_last_dot(s) < j < s.len() implies s[j]
            != '.' by {
            if j < s.len() - 1 {
                assert(s.drop_last()[j] == s[j]);
            }
        }
    }
}

/// Everything after the last `'.'` of the name; the whole name when it has
/// no `'.'` at all.
pub open spec fn spec_extension(s: Seq<char>) -> Seq<char> {
    if spec_last_dot(s) >= 0 {
        s.subrange(spec_last_dot(s) + 1, s.len() as int)
    } else {
        s
    }
}

/// The file-name extension: the part after the final dot, or the whole
/// name when there is no dot.
pub fn extension_from_file_name(filename: &str) -> (r: String)
    ensures
        r@ == spec_extension(filename@),
{
    let v = chars_of(filename);
    let n = v.len();
    let mut i: usize = n;
    while i > 0
        invariant
            n == v@.len(),
            v@ == filename@,
            i <= n,
            forall|j: int| i <= j < n ==> v@[j] != '.',
        decreases i,
    {
        if v[i - 1] == '.' {
            let mut out: Vec<char> = Vec::new();
            let mut k: usize = i;
            while k < n
                invariant
                    n == v@.len(),
                    i <= k <= n,
                    out@ == v@.subrange(i as int, k as int),
                decreases n - k,
            {
                out.push(v[k]);
                proof {
                    assert(v@.subrange(i as int, k + 1 as int) =~= v@.subrange(
                        i as int,
                        k as int,
                    ).push(v@[k as int]));
                }
                k = k + 1;
            }
            proof {
                lemma_last_dot(filename@);
                let ld = spec_last_dot(filename@);
                assert(v@[i - 1] == '.');
                if ld < i - 1 {
                    assert(filename@[i - 1] != '.');
                }
                if ld > i - 1 {
                    assert(v@[ld] != '.');
                }
                assert(ld == i - 1);
            }
            return chars_to_string(&out);
        }
        i = i - 1;
    }
    proof {
        lemma_last_dot(filename@);
        let ld = spec_last_dot(filename@);
        if ld >= 0 {
            assert(v@[ld] != '.');
        }
    }
    let whole = chars_of(filename);
    chars_to_string(&whole)
}

} // verus!
