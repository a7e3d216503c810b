use vstd::prelude::*;

verus! {

/// An IPv4 or IPv6 address: four bytes, or eight groups of sixteen bits, most
/// significant first.
#[derive(Debug, Clone, Copy)]
pub enum IpAddress {
    V4([u8; 4]),
    V6([u16; 8]),
}

/// An address by the sequence of its parts.
pub enum IpAddressView {
    V4(Seq<u8>),
    V6(Seq<u16>),
}

impl View for IpAddress {
    type V = IpAddressView;

    open spec fn view(&self) -> IpAddressView {
        match self {
            IpAddress::V4(octets) => IpAddressView::V4(octets@),
            IpAddress::V6(groups) => IpAddressView::V6(groups@),
        }
    }
}

/// The runs of `s` between separators, with `current` in front of the first.
pub open spec fn split_from(s: Seq<u8>, sep: u8, current: Seq<u8>) -> Seq<Seq<u8>>
    decreases s.len(),
{
    if s.len() == 0 {
        seq![current]
    } else if s[0] == sep {
        seq![current] + split_from(s.skip(1), sep, Seq::empty())
    } else {
        split_from(s.skip(1), sep, current.push(s[0]))
    }
}

/// The runs of `s` between separators. There is one run more than there are
/// separators; a run may be empty.
pub open spec fn split(s: Seq<u8>, sep: u8) -> Seq<Seq<u8>> {
    split_from(s, sep, Seq::empty())
}

/// What a character is worth as a digit below `radix`, which is 10 or 16.
pub open spec fn digit_of(c: u8, radix: nat) -> Option<nat> {
    if 0x30 <= c <= 0x39 {
        Some((c - 0x30) as nat)
    } else if radix == 16 && 0x61 <= c <= 0x66 {
        Some((c - 0x61 + 10) as nat)
    } else if radix == 16 && 0x41 <= c <= 0x46 {
        Some((c - 0x41 + 10) as nat)
    } else {
        None
    }
}

/// The number that digits make, most significant first, where all of them are
/// digits.
pub open spec fn digits_value(s: Seq<u8>, radix: nat) -> Option<nat>
    decreases s.len(),
{
    if s.len() == 0 {
        Some(0)
    } else {
        match (digits_value(s.drop_last(), radix), digit_of(s.last(), radix)) {
            (Some(v), Some(d)) => Some(v * radix + d),
            _ => None,
        }
    }
}

/// A part of a dotted address: one to three decimal digits that make at most
/// 255, with no zero in front of another digit.
pub open spec fn octet_of(s: Seq<u8>) -> Option<u8> {
    if 1 <= s.len() <= 3 && !(s.len() > 1 && s[0] == 0x30) {
        match digits_value(s, 10) {
            Some(v) => if v <= 255 {
                Some(v as u8)
            } else {
                None
            },
            None => None,
        }
    } else {
        None
    }
}

/// A group of an IPv6 address: one to four hexadecimal digits.
pub open spec fn group_of(s: Seq<u8>) -> Option<u16> {
    if 1 <= s.len() <= 4 {
        match digits_value(s, 16) {
            Some(v) => Some(v as u16),
            None => None,
        }
    } else {
        None
    }
}

/// The octets that the first `n` of some parts make, where each is one.
pub open spec fn octets_of(parts: Seq<Seq<u8>>, n: nat) -> Option<Seq<u8>>
    decreases n,
{
    if n == 0 {
        Some(Seq::empty())
    } else {
        match (octets_of(parts, (n - 1) as nat), octet_of(parts[n - 1])) {
            (Some(head), Some(o)) => Some(head.push(o)),
            _ => None,
        }
    }
}

/// A dotted address: four octets with dots between them.
pub open spec fn ipv4_of(s: Seq<u8>) -> Option<Seq<u8>> {
    let parts = split(s, 0x2e);
    if parts.len() == 4 {
        octets_of(parts, 4)
    } else {
        None
    }
}

/// The 16-bit groups that the first `n` of some parts make, where each is a
/// group of hexadecimal digits.
pub open spec fn groups_of(parts: Seq<Seq<u8>>, n: nat) -> Option<Seq<u16>>
    decreases n,
{
    if n == 0 {
        Some(Seq::empty())
    } else {
        match (groups_of(parts, (n - 1) as nat), group_of(parts[n - 1])) {
            (Some(head), Some(g)) => Some(head.push(g)),
            _ => None,
        }
    }
}

/// The two 16-bit groups that four octets make.
pub open spec fn octet_groups(o: Seq<u8>) -> Seq<u16> {
    seq![(o[0] * 0x100 + o[1]) as u16, (o[2] * 0x100 + o[3]) as u16]
}

/// The 16-bit groups of a run of text with colons between its parts. Each
/// part is a group of hexadecimal digits, but the last may be a dotted
/// address, which makes two groups. An empty text has no groups.
pub open spec fn colon_groups(s: Seq<u8>) -> Option<Seq<u16>> {
    if s.len() == 0 {
        Some(Seq::empty())
    } else {
        let parts = split(s, 0x3a);
        match groups_of(parts, (parts.len() - 1) as nat) {
            None => None,
            Some(head) => match group_of(parts.last()) {
                Some(g) => Some(head.push(g)),
                None => match ipv4_of(parts.last()) {
                    Some(o) => Some(head + octet_groups(o)),
                    None => None,
                },
            },
        }
    }
}

/// Where the first pair of colons stands in `s`, from `from` on; the length
/// of `s` where there is none.
pub open spec fn double_colon(s: Seq<u8>, from: int) -> int
    decreases s.len() - from,
{
    if from + 1 >= s.len() {
        s.len() as int
    } else if s[from] == 0x3a && s[from + 1] == 0x3a {
        from
    } else {
        double_colon(s, from + 1)
    }
}

/// `n` groups of zero.
pub open spec fn zero_groups(n: nat) -> Seq<u16> {
    Seq::new(n, |i: int| 0u16)
}

/// An IPv6 address in text: eight groups with colons between them, or fewer
/// with one pair of colons that stands for the groups of zero that are
/// missing, of which there is at least one. What follows the last colon may
/// be a dotted address.
pub open spec fn ipv6_of(s: Seq<u8>) -> Option<Seq<u16>> {
    let at = double_colon(s, 0);
    if at == s.len() {
        match colon_groups(s) {
            Some(groups) => if groups.len() == 8 {
                Some(groups)
            } else {
                None
            },
            None => None,
        }
    } else {
        match (colon_groups(s.take(at)), colon_groups(s.skip(at + 2))) {
            (Some(head), Some(tail)) => if head.len() + tail.len() <= 7 && (at == 0
                || group_of(split(s.take(at), 0x3a).last()) is Some) {
                Some(head + zero_groups((8 - head.len() - tail.len()) as nat) + tail)
            } else {
                None
            },
            _ => None,
        }
    }
}

/// An address in text: a dotted IPv4 address, or an IPv6 address.
pub open spec fn ip_address_of(s: Seq<u8>) -> Option<IpAddressView> {
    match ipv4_of(s) {
        Some(o) => Some(IpAddressView::V4(o)),
        None => match ipv6_of(s) {
            Some(g) => Some(IpAddressView::V6(g)),
            None => None,
        },
    }
}

/// The parts of a split, each by its bytes.
pub open spec fn parts_view(parts: Vec<Vec<u8>>) -> Seq<Seq<u8>> {
    Seq::new(parts@.len(), |i: int| parts@[i]@)
}

/// Cuts `s` at every `sep`.
fn split_at(s: &[u8], sep: u8) -> (parts: Vec<Vec<u8>>)
    ensures
        parts_view(parts) == split(s@, sep),
        parts@.len() >= 1,
{
    let mut parts: Vec<Vec<u8>> = Vec::new();
    let mut current: Vec<u8> = Vec::new();
    let mut i: usize = 0;
    assert(s@.skip(0) =~= s@);
    assert(parts_view(parts) =~= Seq::<Seq<u8>>::empty());
    while i < s.len()
        invariant
            i <= s@.len(),
            split(s@, sep) == parts_view(parts) + split_from(s@.skip(i as int), sep, current@),
        decreases s@.len() - i,
    {
        let ghost left = s@.skip(i as int);
        let ghost done = parts_view(parts);
        assert(left[0] == s@[i as int]);
        assert(left.skip(1) =~= s@.skip(i + 1));
        if s[i] == sep {
            let ghost run = current@;
            parts.push(current);
            current = Vec::new();
            assert(parts_view(parts) =~= done + seq![run]);
        } else {
            current.push(s[i]);
        }
        i = i + 1;
    }
    let ghost done = parts_view(parts);
    assert(s@.skip(i as int) =~= Seq::<u8>::empty());
    parts.push(current);
    assert(parts_view(parts) =~= done + seq![current@]);
    parts
}

/// Reads digits below `radix`, which is 10 or 16.
fn parse_digits(s: &[u8], radix: u32) -> (r: Option<u32>)
    requires
        s@.len() <= 4,
        radix == 10 || radix == 16,
    ensures
        match digits_value(s@, radix as nat) {
            Some(v) => r == Some(v as u32) && v < 0x1_0000,
            None => r is None,
        },
{
    let mut value: u32 = 0;
    let mut i: usize = 0;
    assert(s@.take(0) =~= Seq::<u8>::empty());
    while i < s.len()
        invariant
            i <= s@.len() <= 4,
            radix == 10 || radix == 16,
            digits_value(s@.take(i as int), radix as nat) == Some(value as nat),
            i == 0 ==> value == 0,
            i == 1 ==> value < 0x10,
            i == 2 ==> value < 0x100,
            i == 3 ==> value < 0x1000,
            i == 4 ==> value < 0x1_0000,
        decreases s@.len() - i,
    {
        let c = s[i];
        let ghost taken = s@.take(i + 1);
        assert(taken.drop_last() =~= s@.take(i as int));
        assert(taken.last() == c);
        let digit: u32 = if 0x30 <= c && c <= 0x39 {
            (c - 0x30) as u32
        } else if radix == 16 && 0x61 <= c && c <= 0x66 {
            (c - 0x61 + 10) as u32
        } else if radix == 16 && 0x41 <= c && c <= 0x46 {
            (c - 0x41 + 10) as u32
        } else {
            proof {
                lemma_digits_prefix(s@, i + 1, radix as nat);
            }
            return None;
        };
        value = value * radix + digit;
        i = i + 1;
    }
    assert(s@.take(i as int) =~= s@);
    Some(value)
}

/// Where a prefix of some text is no number, the text is none either.
proof fn lemma_digits_prefix(s: Seq<u8>, n: int, radix: nat)
    requires
        0 <= n <= s.len(),
        digits_value(s.take(n), radix) is None,
    ensures
        digits_value(s, radix) is None,
    decreases s.len() - n,
{
    if n < s.len() {
        assert(s.take(n + 1).drop_last() =~= s.take(n));
        lemma_digits_prefix(s, n + 1, radix);
    } else {
        assert(s.take(n) =~= s);
    }
}

fn parse_octet(s: &[u8]) -> (r: Option<u8>)
    ensures
        r == octet_of(s@),
{
    if s.len() < 1 || s.len() > 3 || (s.len() > 1 && s[0] == 0x30) {
        return None;
    }
    match parse_digits(s, 10) {
        Some(v) => if v <= 255 {
            Some(v as u8)
        } else {
            None
        },
        None => None,
    }
}

fn parse_group(s: &[u8]) -> (r: Option<u16>)
    ensures
        r == group_of(s@),
{
    if s.len() < 1 || s.len() > 4 {
        return None;
    }
    match parse_digits(s, 16) {
        Some(v) => Some(v as u16),
        None => None,
    }
}

fn parse_ipv4(s: &[u8]) -> (r: Option<[u8; 4]>)
    ensures
        match ipv4_of(s@) {
            Some(o) => r matches Some(a) && a@ == o,
            None => r is None,
        },
{
    let parts = split_at(s, 0x2e);
    if parts.len() != 4 {
        return None;
    }
    let ghost view = parts_view(parts);
    let mut octets = [0u8; 4];
    let mut i: usize = 0;
    while i < 4
        invariant
            i <= 4,
            parts@.len() == 4,
            view == parts_view(parts),
            view == split(s@, 0x2e),
            octets_of(view, i as nat) matches Some(head) && head == octets@.take(i as int),
        decreases 4 - i,
    {
        assert(view[i as int] == parts@[i as int]@);
        match parse_octet(parts[i].as_slice()) {
            Some(o) => {
                let ghost before = octets@;
                octets[i] = o;
                assert(octets@.take(i + 1) =~= before.take(i as int).push(o));
            },
            None => {
                proof {
                    lemma_octets_prefix(view, (i + 1) as nat, 4);
                }
                return None;
            },
        }
        i = i + 1;
    }
    assert(octets@.take(4) =~= octets@);
    Some(octets)
}

/// Where the first parts are no octets, more parts are none either.
proof fn lemma_octets_prefix(parts: Seq<Seq<u8>>, n: nat, m: nat)
    requires
        n <= m,
        octets_of(parts, n) is None,
    ensures
        octets_of(parts, m) is None,
    decreases m - n,
{
    if n < m {
        lemma_octets_prefix(parts, n + 1, m);
    }
}

/// Where the first parts are no groups, more parts are none either.
proof fn lemma_groups_prefix(parts: Seq<Seq<u8>>, n: nat, m: nat)
    requires
        n <= m,
        groups_of(parts, n) is None,
    ensures
        groups_of(parts, m) is None,
    decreases m - n,
{
    if n < m {
        lemma_groups_prefix(parts, n + 1, m);
    }
}

/// As many groups come out as parts go in.
proof fn lemma_groups_len(parts: Seq<Seq<u8>>, n: nat)
    ensures
        groups_of(parts, n) matches Some(g) ==> g.len() == n,
    decreases n,
{
    if n > 0 {
        lemma_groups_len(parts, (n - 1) as nat);
    }
}

/// Reads the groups of a run of text with colons between its parts. More
/// than eight groups are none.
fn parse_colon_groups(s: &[u8]) -> (r: Option<Vec<u16>>)
    ensures
        match colon_groups(s@) {
            Some(g) => if g.len() <= 8 {
                r matches Some(v) && v@ == g
            } else {
                r is None
            },
            None => r is None,
        },
{
    let mut groups: Vec<u16> = Vec::new();
    if s.len() == 0 {
        return Some(groups);
    }
    let parts = split_at(s, 0x3a);
    let ghost view = parts_view(parts);
    let last = parts.len() - 1;
    if last > 8 {
        proof {
            lemma_groups_len(view, last as nat);
        }
        return None;
    }
    let mut i: usize = 0;
    while i < last
        invariant
            i <= last,
            last == parts@.len() - 1,
            view == parts_view(parts),
            view == split(s@, 0x3a),
            s@.len() > 0,
            groups_of(view, i as nat) == Some(groups@),
        decreases last - i,
    {
        assert(view[i as int] == parts@[i as int]@);
        match parse_group(parts[i].as_slice()) {
            Some(g) => {
                groups.push(g);
            },
            None => {
                proof {
                    lemma_groups_prefix(view, (i + 1) as nat, last as nat);
                }
                return None;
            },
        }
        i = i + 1;
    }
    proof {
        lemma_groups_len(view, last as nat);
    }
    assert(view.last() == parts@[last as int]@);
    match parse_group(parts[last].as_slice()) {
        Some(g) => {
            groups.push(g);
            if groups.len() > 8 {
                return None;
            }
            Some(groups)
        },
        None => match parse_ipv4(parts[last].as_slice()) {
            Some(o) => {
                let ghost head = groups@;
                groups.push((o[0] as u16) * 0x100 + o[1] as u16);
                groups.push((o[2] as u16) * 0x100 + o[3] as u16);
                assert(groups@ =~= head + octet_groups(o@));
                if groups.len() > 8 {
                    return None;
                }
                Some(groups)
            },
            None => None,
        },
    }
}

/// Finds the first pair of colons.
fn find_double_colon(s: &[u8]) -> (at: usize)
    ensures
        at == double_colon(s@, 0),
        at <= s@.len(),
        at < s@.len() ==> at + 2 <= s@.len(),
{
    let mut i: usize = 0;
    while s.len() - i > 1
        invariant
            i <= s@.len(),
            double_colon(s@, 0) == double_colon(s@, i as int),
        decreases s@.len() - i,
    {
        if s[i] == 0x3a && s[i + 1] == 0x3a {
            return i;
        }
        i = i + 1;
    }
    s.len()
}

fn parse_ipv6(s: &[u8]) -> (r: Option<[u16; 8]>)
    ensures
        match ipv6_of(s@) {
            Some(g) => r matches Some(a) && a@ == g,
            None => r is None,
        },
{
    let at = find_double_colon(s);
    let mut out = [0u16; 8];
    if at == s.len() {
        let groups = parse_colon_groups(s)?;
        if groups.len() != 8 {
            return None;
        }
        let mut i: usize = 0;
        while i < 8
            invariant
                i <= 8,
                groups@.len() == 8,
                forall|j: int| 0 <= j < i ==> out@[j] == groups@[j],
            decreases 8 - i,
        {
            out[i] = groups[i];
            i = i + 1;
        }
        assert(out@ =~= groups@);
        return Some(out);
    }
    let head_text = vstd::slice::slice_subrange(s, 0, at);
    let tail_text = vstd::slice::slice_subrange(s, at + 2, s.len());
    assert(head_text@ =~= s@.take(at as int));
    assert(tail_text@ =~= s@.skip(at + 2));
    let head = parse_colon_groups(head_text)?;
    let tail = parse_colon_groups(tail_text)?;
    if head.len() + tail.len() > 7 {
        return None;
    }
    if at != 0 {
        let parts = split_at(head_text, 0x3a);
        assert(parts_view(parts).last() == parts@[parts@.len() - 1]@);
        if parse_group(parts[parts.len() - 1].as_slice()).is_none() {
            return None;
        }
    }
    let gap = 8 - head.len() - tail.len();
    let ghost want = head@ + zero_groups(gap as nat) + tail@;
    let mut i: usize = 0;
    while i < head.len()
        invariant
            i <= head@.len(),
            head@.len() + tail@.len() <= 7,
            out@.len() == 8,
            forall|j: int| 0 <= j < i ==> out@[j] == head@[j],
            forall|j: int| i <= j < 8 ==> out@[j] == 0,
        decreases head@.len() - i,
    {
        out[i] = head[i];
        i = i + 1;
    }
    let mut k: usize = 0;
    while k < tail.len()
        invariant
            k <= tail@.len(),
            head@.len() + tail@.len() <= 7,
            gap == 8 - head@.len() - tail@.len(),
            out@.len() == 8,
            forall|j: int| 0 <= j < head@.len() ==> out@[j] == head@[j],
            forall|j: int| head@.len() <= j < head@.len() + gap ==> out@[j] == 0,
            forall|j: int| 0 <= j < k ==> out@[head@.len() + gap + j] == tail@[j],
        decreases tail@.len() - k,
    {
        out[head.len() + gap + k] = tail[k];
        k = k + 1;
    }
    assert(out@ =~= want);
    Some(out)
}

/// Reads an address from text: a dotted IPv4 address or an IPv6 address, and
/// nothing where the text is neither.
pub fn parse_ip_address(text: &str) -> (r: Option<IpAddress>)
    ensures
        match ip_address_of(vstd::utf8::encode_utf8(text@)) {
            Some(a) => r matches Some(b) && b@ == a,
            None => r is None,
        },
{
    let bytes = text.as_bytes();
    match parse_ipv4(bytes) {
        Some(octets) => Some(IpAddress::V4(octets)),
        None => match parse_ipv6(bytes) {
            Some(groups) => Some(IpAddress::V6(groups)),
            None => None,
        },
    }
}

} // verus!
