use vstd::prelude::*;

verus! {

// A textual IPv6 address parser, following the grammar the Rust standard
// library uses: up to eight groups of one to four hexadecimal digits
// separated by `:`, at most one `::` standing for one or more zero groups,
// and an optional trailing dotted-quad IPv4 part standing for the last two
// groups. The whole input must be consumed.

pub open spec fn is_hex_digit(c: char) -> bool {
    ('0' <= c && c <= '9') || ('a' <= c && c <= 'f') || ('A' <= c && c <= 'F')
}

pub open spec fn hex_digit_value(c: char) -> int {
    if '0' <= c && c <= '9' {
        c as int - '0' as int
    } else if 'a' <= c && c <= 'f' {
        c as int - 'a' as int + 10
    } else if 'A' <= c && c <= 'F' {
        c as int - 'A' as int + 10
    } else {
        0
    }
}

pub open spec fn is_dec_digit(c: char) -> bool {
    '0' <= c && c <= '9'
}

pub open spec fn dec_digit_value(c: char) -> int {
    if is_dec_digit(c) {
        c as int - '0' as int
    } else {
        0
    }
}

fn hex_digit(c: char) -> (r: bool)
    ensures
        r == is_hex_digit(c),
{
    ('0' <= c && c <= '9') || ('a' <= c && c <= 'f') || ('A' <= c && c <= 'F')
}

fn dec_digit(c: char) -> (r: bool)
    ensures
        r == is_dec_digit(c),
{
    '0' <= c && c <= '9'
}

fn hex_digit_val(c: char) -> (r: u32)
    ensures
        r == hex_digit_value(c),
        r < 16,
{
    if '0' <= c && c <= '9' {
        c as u32 - '0' as u32
    } else if 'a' <= c && c <= 'f' {
        c as u32 - 'a' as u32 + 10
    } else if 'A' <= c && c <= 'F' {
        c as u32 - 'A' as u32 + 10
    } else {
        0
    }
}

fn dec_digit_val(c: char) -> (r: u32)
    ensures
        r == dec_digit_value(c),
        r < 10,
{
    if '0' <= c && c <= '9' {
        c as u32 - '0' as u32
    } else {
        0
    }
}

/// First position at or after `i` that does not hold a hexadecimal digit.
pub open spec fn hex_run_end(s: Seq<char>, i: int) -> int
    decreases s.len() - i,
{
    if i < s.len() && is_hex_digit(s[i]) {
        hex_run_end(s, i + 1)
    } else {
        i
    }
}

/// First position at or after `i` that does not hold a decimal digit.
pub open spec fn dec_run_end(s: Seq<char>, i: int) -> int
    decreases s.len() - i,
{
    if i < s.len() && is_dec_digit(s[i]) {
        dec_run_end(s, i + 1)
    } else {
        i
    }
}

proof fn lemma_hex_run_end_bounds(s: Seq<char>, i: int)
    requires
        0 <= i <= s.len(),
    ensures
        i <= hex_run_end(s, i) <= s.len(),
    decreases s.len() - i,
{
    if i < s.len() && is_hex_digit(s[i]) {
        lemma_hex_run_end_bounds(s, i + 1);
    }
}

proof fn lemma_dec_run_end_bounds(s: Seq<char>, i: int)
    requires
        0 <= i <= s.len(),
    ensures
        i <= dec_run_end(s, i) <= s.len(),
    decreases s.len() - i,
{
    if i < s.len() && is_dec_digit(s[i]) {
        lemma_dec_run_end_bounds(s, i + 1);
    }
}

proof fn lemma_hex_run_end_is(s: Seq<char>, i: int, j: int)
    requires
        0 <= i <= j <= s.len(),
        forall|k: int| i <= k < j ==> is_hex_digit(s[k]),
        j == s.len() || !is_hex_digit(s[j]),
    ensures
        hex_run_end(s, i) == j,
    decreases j - i,
{
    if i < j {
        lemma_hex_run_end_is(s, i + 1, j);
    }
}

proof fn lemma_hex_run_end_ge(s: Seq<char>, i: int, j: int)
    requires
        0 <= i <= j <= s.len(),
        forall|k: int| i <= k < j ==> is_hex_digit(s[k]),
    ensures
        hex_run_end(s, i) >= j,
    decreases j - i,
{
    if i < j {
        assert(is_hex_digit(s[i]));
        lemma_hex_run_end_ge(s, i + 1, j);
    } else {
        lemma_hex_run_end_bounds(s, i);
    }
}

proof fn lemma_dec_run_end_is(s: Seq<char>, i: int, j: int)
    requires
        0 <= i <= j <= s.len(),
        forall|k: int| i <= k < j ==> is_dec_digit(s[k]),
        j == s.len() || !is_dec_digit(s[j]),
    ensures
        dec_run_end(s, i) == j,
    decreases j - i,
{
    if i < j {
        lemma_dec_run_end_is(s, i + 1, j);
    }
}

proof fn lemma_dec_run_end_ge(s: Seq<char>, i: int, j: int)
    requires
        0 <= i <= j <= s.len(),
        forall|k: int| i <= k < j ==> is_dec_digit(s[k]),
    ensures
        dec_run_end(s, i) >= j,
    decreases j - i,
{
    if i < j {
        assert(is_dec_digit(s[i]));
        lemma_dec_run_end_ge(s, i + 1, j);
    } else {
        lemma_dec_run_end_bounds(s, i);
    }
}

/// Value of the hexadecimal digits in `s[i..j]`, most significant first.
pub open spec fn hex_group_value(s: Seq<char>, i: int, j: int) -> int
    decreases j - i,
{
    if i >= j {
        0
    } else {
        hex_group_value(s, i, j - 1) * 16 + hex_digit_value(s[j - 1])
    }
}

/// Value of the decimal digits in `s[i..j]`, most significant first.
pub open spec fn dec_value(s: Seq<char>, i: int, j: int) -> int
    decreases j - i,
{
    if i >= j {
        0
    } else {
        dec_value(s, i, j - 1) * 10 + dec_digit_value(s[j - 1])
    }
}

/// One group of one to four hexadecimal digits; the result pairs its value
/// with the position just past it.
pub open spec fn read_hex_group(s: Seq<char>, i: int) -> Option<(u16, int)> {
    let j = hex_run_end(s, i);
    if j == i || j - i > 4 {
        None
    } else {
        Some((hex_group_value(s, i, j) as u16, j))
    }
}

/// One decimal octet of an embedded IPv4 part: one to three digits, no
/// leading zero on a multi-digit number, value at most 255.
pub open spec fn read_octet(s: Seq<char>, i: int) -> Option<(u8, int)> {
    let j = dec_run_end(s, i);
    if j == i || j - i > 3 {
        None
    } else if j - i > 1 && s[i] == '0' {
        None
    } else if dec_value(s, i, j) > 255 {
        None
    } else {
        Some((dec_value(s, i, j) as u8, j))
    }
}

spec fn p16(n: int) -> int {
    if n <= 0 {
        1
    } else if n == 1 {
        16
    } else if n == 2 {
        256
    } else if n == 3 {
        4096
    } else if n == 4 {
        65536
    } else {
        1048576
    }
}

spec fn p10(n: int) -> int {
    if n <= 0 {
        1
    } else if n == 1 {
        10
    } else if n == 2 {
        100
    } else if n == 3 {
        1000
    } else {
        10000
    }
}

fn scan_hex_group(s: &Vec<char>, i: usize) -> (r: Option<(u16, usize)>)
    requires
        i <= s@.len(),
    ensures
        (match r {
            Some(p) => read_hex_group(s@, i as int) == Some((p.0, p.1 as int)) && p.1 <= s@.len(),
            None => read_hex_group(s@, i as int) is None,
        }),
{
    let mut j = i;
    let mut val: u32 = 0;
    while j < s.len() && j - i < 5 && hex_digit(s[j])
        invariant
            i <= j <= s@.len(),
            j - i <= 5,
            forall|k: int| i <= k < j ==> is_hex_digit(s@[k]),
            val == hex_group_value(s@, i as int, j as int),
            val < p16(j - i),
        decreases s@.len() - j,
    {
        val = val * 16 + hex_digit_val(s[j]);
        j = j + 1;
    }
    if j - i == 0 {
        proof {
            lemma_hex_run_end_is(s@, i as int, i as int);
        }
        None
    } else if j - i == 5 {
        proof {
            lemma_hex_run_end_ge(s@, i as int, j as int);
        }
        None
    } else {
        proof {
            lemma_hex_run_end_is(s@, i as int, j as int);
        }
        Some((val as u16, j))
    }
}

fn scan_octet(s: &Vec<char>, i: usize) -> (r: Option<(u8, usize)>)
    requires
        i <= s@.len(),
    ensures
        (match r {
            Some(p) => read_octet(s@, i as int) == Some((p.0, p.1 as int)) && p.1 <= s@.len(),
            None => read_octet(s@, i as int) is None,
        }),
{
    let mut j = i;
    let mut val: u32 = 0;
    while j < s.len() && j - i < 4 && dec_digit(s[j])
        invariant
            i <= j <= s@.len(),
            j - i <= 4,
            forall|k: int| i <= k < j ==> is_dec_digit(s@[k]),
            val == dec_value(s@, i as int, j as int),
            val < p10(j - i),
        decreases s@.len() - j,
    {
        val = val * 10 + dec_digit_val(s[j]);
        j = j + 1;
    }
    if j - i == 0 {
        proof {
            lemma_dec_run_end_is(s@, i as int, i as int);
        }
        None
    } else if j - i == 4 {
        proof {
            lemma_dec_run_end_ge(s@, i as int, j as int);
        }
        None
    } else {
        proof {
            lemma_dec_run_end_is(s@, i as int, j as int);
        }
        if j - i > 1 && s[i] == '0' {
            None
        } else if val > 255 {
            None
        } else {
            Some((val as u8, j))
        }
    }
}

/// A dotted-quad IPv4 part: four octets separated by `.`.
pub open spec fn read_ipv4(s: Seq<char>, i: int) -> Option<((u8, u8, u8, u8), int)> {
    match read_octet(s, i) {
        None => None,
        Some((a, i1)) => if i1 < s.len() && s[i1] == '.' {
            match read_octet(s, i1 + 1) {
                None => None,
                Some((b, i2)) => if i2 < s.len() && s[i2] == '.' {
                    match read_octet(s, i2 + 1) {
                        None => None,
                        Some((c, i3)) => if i3 < s.len() && s[i3] == '.' {
                            match read_octet(s, i3 + 1) {
                                None => None,
                                Some((d, i4)) => Some(((a, b, c, d), i4)),
                            }
                        } else {
                            None
                        },
                    }
                } else {
                    None
                },
            }
        } else {
            None
        },
    }
}

fn scan_ipv4(s: &Vec<char>, i: usize) -> (r: Option<((u8, u8, u8, u8), usize)>)
    requires
        i <= s@.len(),
    ensures
        (match r {
            Some(p) => read_ipv4(s@, i as int) == Some((p.0, p.1 as int)) && p.1 <= s@.len(),
            None => read_ipv4(s@, i as int) is None,
        }),
{
    match scan_octet(s, i) {
        None => None,
        Some((a, i1)) => if i1 < s.len() && s[i1] == '.' {
            match scan_octet(s, i1 + 1) {
                None => None,
                Some((b, i2)) => if i2 < s.len() && s[i2] == '.' {
                    match scan_octet(s, i2 + 1) {
                        None => None,
                        Some((c, i3)) => if i3 < s.len() && s[i3] == '.' {
                            match scan_octet(s, i3 + 1) {
                                None => None,
                                Some((d, i4)) => Some(((a, b, c, d), i4)),
                            }
                        } else {
                            None
                        },
                    }
                } else {
                    None
                },
            }
        } else {
            None
        },
    }
}

/// Where the next group starts: at `i` for the first group of a run, past a
/// separating `:` otherwise.
pub open spec fn group_start(s: Seq<char>, i: int, first: bool) -> Option<int> {
    if first {
        Some(i)
    } else if i < s.len() && s[i] == ':' {
        Some(i + 1)
    } else {
        None
    }
}

/// Reads up to `remaining` colon-separated groups starting at `i`, stopping
/// early at the first position where no further group can be read. A
/// dotted-quad IPv4 part may stand for the last two groups wherever at least
/// two slots are left; the flag says whether one did, which also ends the run.
pub open spec fn read_groups(s: Seq<char>, i: int, first: bool, remaining: nat) -> (Seq<
    u16,
>, int, bool)
    decreases remaining,
{
    if remaining == 0 {
        (Seq::<u16>::empty(), i, false)
    } else {
        match group_start(s, i, first) {
            None => (Seq::<u16>::empty(), i, false),
            Some(j) => {
                let v4 = if remaining >= 2 {
                    read_ipv4(s, j)
                } else {
                    None
                };
                match v4 {
                    Some((o, k)) => (
                        seq![
                            ((o.0 as int) * 256 + (o.1 as int)) as u16,
                            ((o.2 as int) * 256 + (o.3 as int)) as u16,
                        ],
                        k,
                        true,
                    ),
                    None => match read_hex_group(s, j) {
                        None => (Seq::<u16>::empty(), i, false),
                        Some((v, k)) => {
                            let (rest, end, ip4) = read_groups(s, k, false, (remaining - 1) as nat);
                            (seq![v] + rest, end, ip4)
                        },
                    },
                }
            },
        }
    }
}

proof fn lemma_read_groups_len(s: Seq<char>, i: int, first: bool, remaining: nat)
    ensures
        read_groups(s, i, first, remaining).0.len() <= remaining,
    decreases remaining,
{
    if remaining > 0 {
        match group_start(s, i, first) {
            None => {},
            Some(j) => {
                let v4 = if remaining >= 2 {
                    read_ipv4(s, j)
                } else {
                    None
                };
                match v4 {
                    Some(_) => {},
                    None => match read_hex_group(s, j) {
                        None => {},
                        Some((v, k)) => {
                            lemma_read_groups_len(s, k, false, (remaining - 1) as nat);
                        },
                    },
                }
            },
        }
    }
}

fn scan_groups(s: &Vec<char>, i: usize, first: bool, remaining: u8) -> (r: (Vec<u16>, usize, bool))
    requires
        i <= s@.len(),
    ensures
        ({
            let (gs, end, ip4) = read_groups(s@, i as int, first, remaining as nat);
            r.0@ == gs && r.1 as int == end && r.2 == ip4 && r.1 <= s@.len() && r.0@.len()
                <= remaining
        }),
    decreases remaining,
{
    if remaining == 0 {
        return (Vec::new(), i, false);
    }
    let j_opt: Option<usize> = if first {
        Some(i)
    } else if i < s.len() && s[i] == ':' {
        Some(i + 1)
    } else {
        None
    };
    match j_opt {
        None => (Vec::new(), i, false),
        Some(j) => {
            let v4 = if remaining >= 2 {
                scan_ipv4(s, j)
            } else {
                None
            };
            match v4 {
                Some(((a, b, c, d), k)) => {
                    let mut v: Vec<u16> = Vec::new();
                    v.push((a as u16) * 256 + (b as u16));
                    v.push((c as u16) * 256 + (d as u16));
                    proof {
                        let (gs, end, ip4) = read_groups(s@, i as int, first, remaining as nat);
                        assert(v@ =~= gs);
                    }
                    (v, k, true)
                },
                None => {
                    match scan_hex_group(s, j) {
                        None => (Vec::new(), i, false),
                        Some((val, k)) => {
                            let (mut rest, end, ip4) = scan_groups(s, k, false, remaining - 1);
                            let mut v: Vec<u16> = Vec::new();
                            v.push(val);
                            v.append(&mut rest);
                            proof {
                                let (gs, gend, gip4) = read_groups(
                                    s@,
                                    i as int,
                                    first,
                                    remaining as nat,
                                );
                                assert(v@ =~= gs);
                            }
                            (v, end, ip4)
                        },
                    }
                },
            }
        },
    }
}

/// The parse of a whole textual IPv6 address: eight groups, or a shorter
/// head and tail joined by one `::` standing for the missing zero groups.
/// The result is the eight 16-bit segments, most significant first.
pub open spec fn spec_parse_ipv6(s: Seq<char>) -> Option<Seq<u16>> {
    let (head, i, head_ipv4) = read_groups(s, 0, true, 8);
    if head.len() == 8 {
        if i == s.len() {
            Some(head)
        } else {
            None
        }
    } else if head_ipv4 {
        None
    } else if i + 1 < s.len() && s[i] == ':' && s[i + 1] == ':' {
        let (tail, k, tail_ipv4) = read_groups(s, i + 2, true, (7 - head.len()) as nat);
        if k == s.len() {
            Some(head + Seq::new((8 - head.len() - tail.len()) as nat, |q: int| 0u16) + tail)
        } else {
            None
        }
    } else {
        None
    }
}

/// Law: whatever text the parser accepts, it yields exactly the eight
/// 16-bit segments of one IPv6 address.
pub proof fn lemma_parse_ipv6_len(s: Seq<char>)
    ensures
        spec_parse_ipv6(s) matches Some(segs) ==> segs.len() == 8,
{
    lemma_read_groups_len(s, 0, true, 8);
    let (head, i, head_ipv4) = read_groups(s, 0, true, 8);
    if head.len() < 8 {
        lemma_read_groups_len(s, i + 2, true, (7 - head.len()) as nat);
    }
}

pub fn parse_ipv6(s: &Vec<char>) -> (r: Option<Vec<u16>>)
    ensures
        (match r {
            Some(v) => spec_parse_ipv6(s@) == Some(v@) && v@.len() == 8,
            None => spec_parse_ipv6(s@) is None,
        }),
{
    let (head, i, head_ipv4) = scan_groups(s, 0, true, 8);
    if head.len() == 8 {
        if i == s.len() {
            Some(head)
        } else {
            None
        }
    } else if head_ipv4 {
        None
    } else if s.len() > 0 && i < s.len() - 1 && s[i] == ':' && s[i + 1] == ':' {
        let head_len = head.len();
        let (mut tail, k, _tail_ipv4) = scan_groups(s, i + 2, true, (7 - head_len) as u8);
        if k == s.len() {
            let ghost gtail = tail@;
            let zeros: usize = 8 - head_len - tail.len();
            let mut v = head;
            let mut z: usize = 0;
            while z < zeros
                invariant
                    z <= zeros,
                    v@ =~= spec_parse_head(s@) + Seq::new(z as nat, |q: int| 0u16),
                    spec_parse_head(s@).len() == head_len,
                    zeros == 8 - head_len - gtail.len(),
                    head_len + gtail.len() <= 7,
                decreases zeros - z,
            {
                v.push(0u16);
                z = z + 1;
            }
            v.append(&mut tail);
            proof {
                let (ghead, gi, _g4) = read_groups(s@, 0, true, 8);
                assert(v@ =~= ghead + Seq::new((8 - ghead.len() - gtail.len()) as nat, |q: int| 0u16)
                    + gtail);
            }
            Some(v)
        } else {
            None
        }
    } else {
        None
    }
}

/// The head run of groups, before any `::`.
pub open spec fn spec_parse_head(s: Seq<char>) -> Seq<u16> {
    read_groups(s, 0, true, 8).0
}

} // verus!
