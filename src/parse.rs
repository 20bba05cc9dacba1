use vstd::prelude::*;
use crate::address::{Address, address_text, ip_text};
use crate::text::{decimal, digit_char};

verus! {

pub open spec fn is_digit(c: char) -> bool {
    '0' <= c && c <= '9'
}

pub open spec fn all_digits(s: Seq<char>) -> bool {
    forall|i: int| 0 <= i < s.len() ==> is_digit(#[trigger] s[i])
}

/// The number that decimal digits stand for.
pub open spec fn digits_value(s: Seq<char>) -> nat
    decreases s.len(),
{
    if s.len() == 0 {
        0
    } else {
        digits_value(s.drop_last()) * 10 + (s.last() as nat - '0' as nat) as nat
    }
}

/// The pieces of `s` between occurrences of `c`; there is always at least
/// one, possibly empty.
pub open spec fn split_on(s: Seq<char>, c: char) -> Seq<Seq<char>>
    decreases s.len(),
{
    if s.len() == 0 {
        seq![Seq::empty()]
    } else {
        let p = split_on(s.drop_last(), c);
        if s.last() == c {
            p.push(Seq::empty())
        } else {
            p.update(p.len() - 1, p.last().push(s.last()))
        }
    }
}

/// An IPv4 octet as text: one to three digits, no leading zero, at most 255.
pub open spec fn octet_of(s: Seq<char>) -> Option<u8> {
    if 1 <= s.len() <= 3 && all_digits(s) && (s.len() == 1 || s[0] != '0') && digits_value(s) <= 255 {
        Some(digits_value(s) as u8)
    } else {
        None
    }
}

/// A port as text: an optional `+`, then at least one digit, at most 65535.
pub open spec fn port_of(s: Seq<char>) -> Option<u16> {
    let d = if s.len() > 0 && s[0] == '+' { s.drop_first() } else { s };
    if d.len() >= 1 && all_digits(d) && digits_value(d) <= 65535 {
        Some(digits_value(d) as u16)
    } else {
        None
    }
}

/// The endpoint that `ip:port` text stands for: four dot-separated octets
/// before the first colon, a port after it (up to a second colon, if any).
pub open spec fn address_of_text(s: Seq<char>) -> Option<Address> {
    let parts = split_on(s, ':');
    if parts.len() < 2 {
        None
    } else {
        let ip = split_on(parts[0], '.');
        if ip.len() != 4 {
            None
        } else {
            match (octet_of(ip[0]), octet_of(ip[1]), octet_of(ip[2]), octet_of(ip[3]), port_of(parts[1])) {
                (Some(a), Some(b), Some(c), Some(d), Some(port)) => Some(Address { a, b, c, d, port }),
                _ => None,
            }
        }
    }
}

/// Splits `s` at every occurrence of `c`.
pub fn split(s: &Vec<char>, c: char) -> (r: Vec<Vec<char>>)
    ensures
        r@.len() == split_on(s@, c).len(),
        forall|i: int| 0 <= i < r@.len() ==> #[trigger] r@[i]@ == split_on(s@, c)[i],
{
    let mut done: Vec<Vec<char>> = Vec::new();
    let mut cur: Vec<char> = Vec::new();
    let mut i: usize = 0;
    proof {
        assert(s@.subrange(0, 0) =~= Seq::<char>::empty());
    }
    while i < s.len()
        invariant
            0 <= i <= s@.len(),
            done@.len() + 1 == split_on(s@.subrange(0, i as int), c).len(),
            forall|k: int| 0 <= k < done@.len() ==> #[trigger] done@[k]@ == split_on(s@.subrange(0, i as int), c)[k],
            cur@ == split_on(s@.subrange(0, i as int), c).last(),
        decreases s@.len() - i,
    {
        let ghost prev = s@.subrange(0, i as int);
        let ch = s[i];
        proof {
            assert(s@.subrange(0, i + 1).drop_last() =~= prev);
            assert(s@.subrange(0, i + 1).last() == ch);
        }
        if ch == c {
            let piece = cur;
            done.push(piece);
            cur = Vec::new();
            proof {
                assert(cur@ =~= Seq::<char>::empty());
            }
        } else {
            cur.push(ch);
        }
        i = i + 1;
    }
    assert(s@.subrange(0, s@.len() as int) =~= s@);
    done.push(cur);
    done
}

/// The value of a run of digits, where it is at most `limit`.
fn digits_up_to(s: &Vec<char>, from: usize, limit: u32) -> (r: Option<u32>)
    requires
        from <= s@.len(),
        limit <= 65535,
    ensures
        ({
            let d = s@.subrange(from as int, s@.len() as int);
            r == if all_digits(d) && digits_value(d) <= limit { Some(digits_value(d) as u32) } else { None::<u32> }
        }),
{
    let mut v: u32 = 0;
    let mut i: usize = from;
    let ghost d = s@.subrange(from as int, s@.len() as int);
    assert(s@.subrange(from as int, from as int) =~= Seq::<char>::empty());
    while i < s.len()
        invariant
            from <= i <= s@.len(),
            limit <= 65535,
            d == s@.subrange(from as int, s@.len() as int),
            all_digits(s@.subrange(from as int, i as int)),
            v as nat == digits_value(s@.subrange(from as int, i as int)),
            v <= limit,
        decreases s@.len() - i,
    {
        let ch = s[i];
        let ghost pre = s@.subrange(from as int, i as int);
        let ghost next = s@.subrange(from as int, i + 1);
        proof {
            assert(next.drop_last() =~= pre);
            assert(next.last() == ch);
        }
        if !('0' <= ch && ch <= '9') {
            proof {
                assert(d[i - from] == ch);
            }
            return None;
        }
        let dv = (ch as u32) - ('0' as u32);
        if v * 10 + dv > limit {
            proof {
                lemma_digits_grow(s@, from as int, i + 1);
            }
            return None;
        }
        v = v * 10 + dv;
        assert(all_digits(next));
        i = i + 1;
    }
    Some(v)
}

/// Appending digits never lowers the value of a run of digits, and the
/// digits that follow stay digits only if each of them is one.
proof fn lemma_digits_grow(s: Seq<char>, from: int, j: int)
    requires
        0 <= from <= j <= s.len(),
    ensures
        all_digits(s.subrange(from, s.len() as int)) ==> digits_value(s.subrange(from, j)) <= digits_value(
            s.subrange(from, s.len() as int),
        ),
    decreases s.len() - j,
{
    if j < s.len() {
        lemma_digits_grow(s, from, j + 1);
        let a = s.subrange(from, j);
        let b = s.subrange(from, j + 1);
        assert(b.drop_last() =~= a);
        if all_digits(s.subrange(from, s.len() as int)) {
            assert(s.subrange(from, s.len() as int)[j - from] == s[j]);
            assert(digits_value(a) <= digits_value(b));
        }
    } else {
        assert(s.subrange(from, j) =~= s.subrange(from, s.len() as int));
    }
}

/// Reads an IPv4 octet.
pub fn octet(s: &Vec<char>) -> (r: Option<u8>)
    ensures
        r == octet_of(s@),
{
    let n = s.len();
    if n < 1 || n > 3 || (n > 1 && s[0] == '0') {
        return None;
    }
    assert(s@.subrange(0, n as int) =~= s@);
    match digits_up_to(s, 0, 255) {
        Some(v) => Some(v as u8),
        None => None,
    }
}

/// Reads a port.
pub fn port(s: &Vec<char>) -> (r: Option<u16>)
    ensures
        r == port_of(s@),
{
    let from: usize = if s.len() > 0 && s[0] == '+' { 1 } else { 0 };
    if from >= s.len() {
        return None;
    }
    assert(s@.subrange(from as int, s@.len() as int) =~= if s@.len() > 0 && s@[0] == '+' {
        s@.drop_first()
    } else {
        s@
    });
    match digits_up_to(s, from, 65535) {
        Some(v) => Some(v as u16),
        None => None,
    }
}

/// The characters of `s`.
pub fn chars_of(s: &str) -> (r: Vec<char>)
    ensures
        r@ == s@,
{
    let n = s.unicode_len();
    let mut r: Vec<char> = Vec::new();
    let mut i: usize = 0;
    while i < n
        invariant
            0 <= i <= n,
            n == s@.len(),
            r@ == s@.subrange(0, i as int),
        decreases n - i,
    {
        r.push(s.get_char(i));
        assert(s@.subrange(0, i + 1) =~= s@.subrange(0, i as int).push(s@[i as int]));
        i = i + 1;
    }
    assert(s@.subrange(0, n as int) =~= s@);
    r
}

impl Address {
    /// Reads `ip:port` text, as in `192.168.1.2:8080`; `None` where the
    /// text is not of that form.
    pub fn parse(s: &str) -> (r: Option<Address>)
        ensures
            r == address_of_text(s@),
    {
        let cs = chars_of(s);
        let parts = split(&cs, ':');
        if parts.len() < 2 {
            return None;
        }
        let ip = split(&parts[0], '.');
        if ip.len() != 4 {
            return None;
        }
        match (octet(&ip[0]), octet(&ip[1]), octet(&ip[2]), octet(&ip[3]), port(&parts[1])) {
            (Some(a), Some(b), Some(c), Some(d), Some(port)) => Some(Address { a, b, c, d, port }),
            _ => None,
        }
    }
}

proof fn lemma_digit_char(d: nat)
    requires
        d < 10,
    ensures
        is_digit(digit_char(d)),
        digit_char(d) as nat - '0' as nat == d,
        d != 0 ==> digit_char(d) != '0',
{
}

proof fn lemma_decimal(n: nat)
    ensures
        decimal(n).len() >= 1,
        all_digits(decimal(n)),
        digits_value(decimal(n)) == n,
        n >= 1 ==> decimal(n)[0] != '0',
        n < 10 ==> decimal(n).len() == 1,
        n < 100 ==> decimal(n).len() <= 2,
        n < 1000 ==> decimal(n).len() <= 3,
    decreases n,
{
    if n < 10 {
        lemma_digit_char(n);
        let s = decimal(n);
        assert(s.drop_last() =~= Seq::<char>::empty());
        assert(digits_value(s) == digits_value(s.drop_last()) * 10 + (s.last() as nat - '0' as nat) as nat);
    } else {
        lemma_decimal(n / 10);
        lemma_digit_char(n % 10);
        let s = decimal(n);
        assert(s.drop_last() =~= decimal(n / 10));
        assert(s.last() == digit_char(n % 10));
        assert(digits_value(s) == digits_value(s.drop_last()) * 10 + (s.last() as nat - '0' as nat) as nat);
        assert(digits_value(s) == (n / 10) * 10 + n % 10);
        assert(s[0] == decimal(n / 10)[0]);
        assert forall|i: int| 0 <= i < s.len() implies is_digit(#[trigger] s[i]) by {
            if i < s.len() - 1 {
                assert(s[i] == decimal(n / 10)[i]);
            }
        }
    }
}

/// A sequence without `c` is a single piece.
proof fn lemma_split_single(a: Seq<char>, c: char)
    requires
        !a.contains(c),
    ensures
        split_on(a, c) == seq![a],
    decreases a.len(),
{
    if a.len() > 0 {
        assert(!a.drop_last().contains(c)) by {
            if a.drop_last().contains(c) {
                let i = choose|i: int| 0 <= i < a.drop_last().len() && a.drop_last()[i] == c;
                assert(a[i] == c);
            }
        }
        lemma_split_single(a.drop_last(), c);
        assert(a.last() != c) by {
            assert(a[a.len() - 1] == a.last());
        }
        assert(a.drop_last().push(a.last()) =~= a);
        assert(split_on(a, c) =~= seq![a]);
    } else {
        assert(a =~= Seq::<char>::empty());
    }
}

/// Splitting at an occurrence of `c` splits the two sides apart.
proof fn lemma_split_concat(a: Seq<char>, b: Seq<char>, c: char)
    ensures
        split_on(a + seq![c] + b, c) == split_on(a, c) + split_on(b, c),
    decreases b.len(),
{
    let ac = a + seq![c];
    if b.len() == 0 {
        assert(ac + b =~= ac);
        assert(ac.drop_last() =~= a);
        assert(split_on(ac, c) =~= split_on(a, c) + seq![Seq::<char>::empty()]);
    } else {
        let b2 = b.drop_last();
        lemma_split_concat(a, b2, c);
        let whole = ac + b;
        assert(whole.drop_last() =~= ac + b2);
        assert(whole.last() == b.last());
        let p = split_on(a, c);
        let q = split_on(b2, c);
        assert(split_on(b2, c).len() >= 1) by {
            lemma_split_len(b2, c);
        }
        if b.last() == c {
            assert(split_on(whole, c) =~= p + split_on(b, c));
        } else {
            assert(split_on(whole, c) =~= p + split_on(b, c));
        }
    }
}

proof fn lemma_split_len(s: Seq<char>, c: char)
    ensures
        split_on(s, c).len() >= 1,
    decreases s.len(),
{
    if s.len() > 0 {
        lemma_split_len(s.drop_last(), c);
    }
}

proof fn lemma_no_sep(n: nat, c: char)
    requires
        !is_digit(c),
    ensures
        !decimal(n).contains(c),
{
    lemma_decimal(n);
    if decimal(n).contains(c) {
        let i = choose|i: int| 0 <= i < decimal(n).len() && decimal(n)[i] == c;
        assert(is_digit(decimal(n)[i]));
    }
}

proof fn lemma_octet(n: u8)
    ensures
        octet_of(decimal(n as nat)) == Some(n),
{
    lemma_decimal(n as nat);
}

/// Reading the `ip:port` text of an endpoint gives the endpoint back.
pub proof fn lemma_address_text_round_trip(x: Address)
    ensures
        address_of_text(address_text(x)) == Some(x),
{
    let (da, db, dc, dd) = (decimal(x.a as nat), decimal(x.b as nat), decimal(x.c as nat), decimal(x.d as nat));
    let dp = decimal(x.port as nat);
    lemma_no_sep(x.a as nat, '.');
    lemma_no_sep(x.b as nat, '.');
    lemma_no_sep(x.c as nat, '.');
    lemma_no_sep(x.d as nat, '.');
    lemma_no_sep(x.a as nat, ':');
    lemma_no_sep(x.b as nat, ':');
    lemma_no_sep(x.c as nat, ':');
    lemma_no_sep(x.d as nat, ':');
    lemma_no_sep(x.port as nat, ':');
    let ip = ip_text(x);
    // the octets, split at the dots
    lemma_split_single(dd, '.');
    lemma_split_single(dc, '.');
    lemma_split_single(db, '.');
    lemma_split_single(da, '.');
    let t3 = dc + seq!['.'] + dd;
    lemma_split_concat(dc, dd, '.');
    let t2 = db + seq!['.'] + t3;
    lemma_split_concat(db, t3, '.');
    let t1 = da + seq!['.'] + t2;
    lemma_split_concat(da, t2, '.');
    assert(ip =~= t1);
    assert(split_on(ip, '.') =~= seq![da, db, dc, dd]);
    // the address, split at the colon
    assert(!ip.contains(':')) by {
        if ip.contains(':') {
            let i = choose|i: int| 0 <= i < ip.len() && ip[i] == ':';
            assert(t1[i] == ':');
            if i < da.len() {
                assert(da[i] == ':');
            } else if i < da.len() + 1 + db.len() {
                if i > da.len() {
                    assert(db[i - da.len() - 1] == ':');
                }
            } else if i < da.len() + 1 + db.len() + 1 + dc.len() {
                if i > da.len() + 1 + db.len() {
                    assert(dc[i - da.len() - 1 - db.len() - 1] == ':');
                }
            } else if i > da.len() + 1 + db.len() + 1 + dc.len() {
                assert(dd[i - da.len() - 1 - db.len() - 1 - dc.len() - 1] == ':');
            }
        }
    }
    lemma_split_single(ip, ':');
    lemma_split_single(dp, ':');
    lemma_split_concat(ip, dp, ':');
    assert(address_text(x) =~= ip + seq![':'] + dp);
    assert(split_on(address_text(x), ':') =~= seq![ip, dp]);
    lemma_octet(x.a);
    lemma_octet(x.b);
    lemma_octet(x.c);
    lemma_octet(x.d);
    lemma_decimal(x.port as nat);
    assert(dp[0] != '+') by {
        assert(is_digit(dp[0]));
    }
}

} // verus!
