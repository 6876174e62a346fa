use vstd::prelude::*;

verus! {

/// Largest size, in UTF-8 bytes, of a database name.
pub const MAX_DB_NAME_BYTES: usize = 63;

/// The character a database name holds in place of `c`.
pub open spec fn sanitize_char(c: char) -> char {
    if c == '$' {
        '%'
    } else if c == ' ' {
        '_'
    } else {
        c
    }
}

pub open spec fn sanitized(s: Seq<char>) -> Seq<char> {
    s.map_values(|c: char| sanitize_char(c))
}

/// Number of bytes in the UTF-8 encoding of `c`.
pub open spec fn utf8_width(c: char) -> nat {
    if (c as u32) < 0x80 {
        1
    } else if (c as u32) < 0x800 {
        2
    } else if (c as u32) < 0x10000 {
        3
    } else {
        4
    }
}

/// Number of bytes in the UTF-8 encoding of `s`.
pub open spec fn utf8_size(s: Seq<char>) -> nat
    decreases s.len(),
{
    if s.len() == 0 {
        0
    } else {
        utf8_size(s.drop_last()) + utf8_width(s.last())
    }
}

/// Truncating `s` to `n` bytes cuts no character in two.
pub open spec fn fits_or_splits_at(s: Seq<char>, n: nat) -> bool {
    utf8_size(s) <= n || exists|k: int| 0 <= k <= s.len() && #[trigger] utf8_size(s.take(k)) == n
}

proof fn lemma_size_step(s: Seq<char>, i: int)
    requires
        0 <= i < s.len(),
    ensures
        utf8_size(s.take(i + 1)) == utf8_size(s.take(i)) + utf8_width(s[i]),
{
    assert(s.take(i + 1).drop_last() =~= s.take(i));
}

proof fn lemma_size_monotone(s: Seq<char>, i: int, j: int)
    requires
        0 <= i <= j <= s.len(),
    ensures
        utf8_size(s.take(i)) + (j - i) <= utf8_size(s.take(j)),
    decreases j - i,
{
    if i < j {
        lemma_size_monotone(s, i, j - 1);
        lemma_size_step(s, j - 1);
    }
}

/// Character width computed from the code point, as UTF-8 defines it.
fn char_width(c: char) -> (w: usize)
    ensures
        w == utf8_width(c),
{
    let v = c as u32;
    if v < 0x80 {
        1
    } else if v < 0x800 {
        2
    } else if v < 0x10000 {
        3
    } else {
        4
    }
}

/// Database name for a test description: `$` becomes `%`, a space becomes `_`,
/// and the name is cut to its first 63 bytes.
pub fn get_db_name(description: &str) -> (r: String)
    requires
        fits_or_splits_at(description@, MAX_DB_NAME_BYTES as nat),
    ensures
        r@ == sanitized(description@).take(r@.len() as int),
        r@.len() <= description@.len(),
        utf8_size(description@) <= MAX_DB_NAME_BYTES ==> r@.len() == description@.len(),
        utf8_size(description@) > MAX_DB_NAME_BYTES ==> utf8_size(
            description@.take(r@.len() as int),
        ) == MAX_DB_NAME_BYTES,
{
    let n = description.unicode_len();
    let mut r = String::new();
    let mut i: usize = 0;
    let mut size: usize = 0;
    while i < n
        invariant
            n == description@.len(),
            i <= n,
            size == utf8_size(description@.take(i as int)),
            size <= MAX_DB_NAME_BYTES,
            r@ == sanitized(description@).take(i as int),
        ensures
            i == n || size + utf8_width(description@[i as int]) > MAX_DB_NAME_BYTES,
            r@ == sanitized(description@).take(i as int),
            size == utf8_size(description@.take(i as int)),
            i <= n,
        decreases n - i,
    {
        let c = description.get_char(i);
        let w = char_width(c);
        if size + w > MAX_DB_NAME_BYTES {
            break;
        }
        proof {
            lemma_size_step(description@, i as int);
        }
        let ghost before = r@;
        if c == '$' {
            proof {
                reveal_strlit("%");
            }
            r.append("%");
        } else if c == ' ' {
            proof {
                reveal_strlit("_");
            }
            r.append("_");
        } else {
            r.append(description.substring_char(i, i + 1));
        }
        assert(r@ =~= before.push(sanitize_char(description@[i as int])));
        assert(sanitized(description@).take(i + 1) =~= sanitized(description@).take(i as int).push(
            sanitize_char(description@[i as int]),
        ));
        size = size + w;
        i = i + 1;
    }
    proof {
        assert(description@.take(n as int) =~= description@);
        if i < n {
            lemma_size_step(description@, i as int);
            lemma_size_monotone(description@, i as int + 1, n as int);
            let k = choose|k: int|
                0 <= k <= description@.len() && #[trigger] utf8_size(description@.take(k))
                    == MAX_DB_NAME_BYTES;
            if k <= i {
                lemma_size_monotone(description@, k, i as int);
            } else {
                lemma_size_monotone(description@, i as int + 1, k);
            }
        }
    }
    r
}

} // verus!
