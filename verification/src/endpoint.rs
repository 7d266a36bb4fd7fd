//! Directory entries: the text `address,lifetime` that names one upstream
//! proxy and the seconds for which it stays usable.

use vstd::prelude::*;

verus! {

/// White space as `char::is_whitespace` has it.
pub open spec fn is_space(c: char) -> bool {
    let code = c as u32;
    ||| 0x09 <= code <= 0x0D
    ||| code == 0x20
    ||| code == 0x85
    ||| code == 0xA0
    ||| code == 0x1680
    ||| 0x2000 <= code <= 0x200A
    ||| code == 0x2028
    ||| code == 0x2029
    ||| code == 0x202F
    ||| code == 0x205F
    ||| code == 0x3000
}

/// `text` without the white space at its start.
pub open spec fn trim_start(text: Seq<char>) -> Seq<char>
    decreases text.len(),
{
    if text.len() > 0 && is_space(text.first()) {
        trim_start(text.drop_first())
    } else {
        text
    }
}

/// `text` without the white space at its end.
pub open spec fn trim_end(text: Seq<char>) -> Seq<char>
    decreases text.len(),
{
    if text.len() > 0 && is_space(text.last()) {
        trim_end(text.drop_last())
    } else {
        text
    }
}

/// `text` without the white space at either end.
pub open spec fn trimmed(text: Seq<char>) -> Seq<char> {
    trim_end(trim_start(text))
}

/// Whether `c` is one of the ten decimal digits.
pub open spec fn is_digit(c: char) -> bool {
    0x30 <= c as u32 <= 0x39
}

/// The number that a digit stands for; zero for any other character.
pub open spec fn digit_of(c: char) -> nat {
    if is_digit(c) {
        (c as u32 - 0x30) as nat
    } else {
        0
    }
}

/// The number that `digits` spell in base ten.
pub open spec fn decimal(digits: Seq<char>) -> nat
    decreases digits.len(),
{
    if digits.len() == 0 {
        0
    } else {
        decimal(digits.drop_last()) * 10 + digit_of(digits.last())
    }
}

/// Whether every character of `text` is a decimal digit.
pub open spec fn all_digits(text: Seq<char>) -> bool {
    forall|i: int| 0 <= i < text.len() ==> is_digit(#[trigger] text[i])
}

/// The lifetime that `text` spells: an optional `+`, then one or more
/// decimal digits whose number fits in 64 bits.
pub open spec fn lifetime_of(text: Seq<char>) -> Option<u64> {
    let digits = if text.len() > 0 && text.first() == '+' {
        text.drop_first()
    } else {
        text
    };
    if digits.len() > 0 && all_digits(digits) && decimal(digits) <= u64::MAX {
        Some(decimal(digits) as u64)
    } else {
        None
    }
}

/// Whether the one comma of `text` stands at `at`.
pub open spec fn sole_comma(text: Seq<char>, at: int) -> bool {
    &&& 0 <= at < text.len()
    &&& text[at] == ','
    &&& forall|j: int| 0 <= j < text.len() && j != at ==> text[j] != ','
}

/// The endpoint that a directory entry names: the entry has exactly one
/// comma, with the address before it and the lifetime in seconds after it,
/// each with any white space around it.
pub open spec fn endpoint_of(item: Seq<char>) -> Option<(Seq<char>, u64)> {
    if exists|at: int| sole_comma(item, at) {
        let at = choose|at: int| sole_comma(item, at);
        match lifetime_of(trimmed(item.subrange(at + 1, item.len() as int))) {
            Some(lifetime) => Some((trimmed(item.subrange(0, at)), lifetime)),
            None => None,
        }
    } else {
        None
    }
}

/// The endpoints that the entries of a directory listing name, in the
/// listing's order; entries that name none are passed over.
pub open spec fn endpoints_of(items: Seq<Seq<char>>) -> Seq<(Seq<char>, u64)>
    decreases items.len(),
{
    if items.len() == 0 {
        Seq::empty()
    } else {
        match endpoint_of(items.last()) {
            Some(endpoint) => endpoints_of(items.drop_last()).push(endpoint),
            None => endpoints_of(items.drop_last()),
        }
    }
}

/// The shortest lifetime among `endpoints`; the largest number where there
/// is none.
pub open spec fn shortest_lifetime(endpoints: Seq<(Seq<char>, u64)>) -> u64
    decreases endpoints.len(),
{
    if endpoints.len() == 0 {
        u64::MAX
    } else {
        let rest = shortest_lifetime(endpoints.drop_last());
        if endpoints.last().1 < rest {
            endpoints.last().1
        } else {
            rest
        }
    }
}

/// The seconds for which a generation is kept when its shortest-lived
/// endpoint has `shortest` seconds left: ten seconds less, but never under
/// ten.
pub open spec fn generation_ttl(shortest: u64) -> u64 {
    if shortest >= 20 {
        (shortest - 10) as u64
    } else {
        10
    }
}

/// Computes [`generation_ttl`].
pub fn ttl_for(shortest: u64) -> (ttl: u64)
    ensures
        ttl == generation_ttl(shortest),
{
    let reduced = shortest.saturating_sub(10);
    if reduced > 10 {
        reduced
    } else {
        10
    }
}

/// One upstream proxy of a directory listing.
pub struct Endpoint {
    /// Host and port, as the directory wrote them.
    pub address: String,
    /// The seconds for which the directory keeps the proxy alive.
    pub lifetime: u64,
}

impl View for Endpoint {
    type V = (Seq<char>, u64);

    open spec fn view(&self) -> (Seq<char>, u64) {
        (self.address@, self.lifetime)
    }
}

/// The views of `endpoints`, one for one.
pub open spec fn views_of(endpoints: Seq<Endpoint>) -> Seq<(Seq<char>, u64)> {
    endpoints.map_values(|endpoint: Endpoint| endpoint@)
}

/// The texts of `items`, one for one.
pub open spec fn texts_of(items: Seq<String>) -> Seq<Seq<char>> {
    items.map_values(|item: String| item@)
}

fn is_space_char(c: char) -> (space: bool)
    ensures
        space == is_space(c),
{
    let code = c as u32;
    (0x09 <= code && code <= 0x0D) || code == 0x20 || code == 0x85 || code == 0xA0 || code
        == 0x1680 || (0x2000 <= code && code <= 0x200A) || code == 0x2028 || code == 0x2029 || code
        == 0x202F || code == 0x205F || code == 0x3000
}

/// Where `text[from..to]` starts once the white space at its start is gone.
fn skip_spaces(text: &str, from: usize, to: usize) -> (start: usize)
    requires
        from <= to <= text@.len(),
    ensures
        from <= start <= to,
        text@.subrange(start as int, to as int) == trim_start(text@.subrange(from as int, to as int)),
{
    let mut start = from;
    while start < to
        invariant
            from <= start <= to <= text@.len(),
            trim_start(text@.subrange(start as int, to as int)) == trim_start(
                text@.subrange(from as int, to as int),
            ),
        decreases to - start,
    {
        let c = text.get_char(start);
        let ghost rest = text@.subrange(start as int, to as int);
        assert(rest.first() == c);
        if !is_space_char(c) {
            return start;
        }
        assert(rest.drop_first() == text@.subrange(start + 1, to as int));
        start += 1;
    }
    start
}

/// Where `text[from..to]` ends once the white space at its end is gone.
fn drop_spaces(text: &str, from: usize, to: usize) -> (end: usize)
    requires
        from <= to <= text@.len(),
    ensures
        from <= end <= to,
        text@.subrange(from as int, end as int) == trim_end(text@.subrange(from as int, to as int)),
{
    let mut end = to;
    while end > from
        invariant
            from <= end <= to <= text@.len(),
            trim_end(text@.subrange(from as int, end as int)) == trim_end(
                text@.subrange(from as int, to as int),
            ),
        decreases end - from,
    {
        let c = text.get_char(end - 1);
        let ghost rest = text@.subrange(from as int, end as int);
        assert(rest.last() == c);
        if !is_space_char(c) {
            return end;
        }
        assert(rest.drop_last() == text@.subrange(from as int, end - 1));
        end -= 1;
    }
    end
}

/// A number in base ten is at least the number that any of its prefixes
/// spells.
proof fn lemma_decimal_prefix(digits: Seq<char>, count: int)
    requires
        0 <= count <= digits.len(),
    ensures
        decimal(digits.take(count)) <= decimal(digits),
    decreases digits.len(),
{
    if count == digits.len() {
        assert(digits.take(count) == digits);
    } else {
        lemma_decimal_prefix(digits.drop_last(), count);
        assert(digits.drop_last().take(count) == digits.take(count));
    }
}

/// The lifetime that `text[from..to]` spells.
fn parse_lifetime(text: &str, from: usize, to: usize) -> (lifetime: Option<u64>)
    requires
        from <= to <= text@.len(),
    ensures
        lifetime == lifetime_of(text@.subrange(from as int, to as int)),
{
    let ghost whole = text@.subrange(from as int, to as int);
    let mut at = from;
    if at < to {
        let c = text.get_char(at);
        assert(whole.first() == c);
        if c == '+' {
            at += 1;
        }
    }
    let ghost digits = text@.subrange(at as int, to as int);
    assert(digits == if whole.len() > 0 && whole.first() == '+' {
        whole.drop_first()
    } else {
        whole
    });
    if at == to {
        return None;
    }
    let first = at;
    let mut value: u64 = 0;
    while at < to
        invariant
            from <= first <= at <= to <= text@.len(),
            first < to,
            whole == text@.subrange(from as int, to as int),
            digits == text@.subrange(first as int, to as int),
            digits == if whole.len() > 0 && whole.first() == '+' {
                whole.drop_first()
            } else {
                whole
            },
            all_digits(digits.take(at - first)),
            value == decimal(digits.take(at - first)),
        decreases to - at,
    {
        let c = text.get_char(at);
        let ghost seen = digits.take(at - first);
        let ghost next = digits.take(at - first + 1);
        assert(digits[at - first] == c);
        assert(next.drop_last() == seen);
        assert(next.last() == c);
        let code = c as u32;
        if code < 0x30 || code > 0x39 {
            assert(!is_digit(digits[at - first]));
            return None;
        }
        let digit: u64 = (code - 0x30) as u64;
        if value > (u64::MAX - digit) / 10 {
            proof {
                lemma_decimal_prefix(digits, at - first + 1);
                assert(decimal(next) == decimal(seen) * 10 + digit_of(c));
            }
            return None;
        }
        value = value * 10 + digit;
        at += 1;
    }
    assert(digits.take(at - first) == digits);
    Some(value)
}

/// The place of the one comma of `text`, if it has exactly one.
fn find_sole_comma(text: &str, len: usize) -> (found: Option<usize>)
    requires
        len == text@.len(),
    ensures
        match found {
            Some(at) => sole_comma(text@, at as int),
            None => forall|at: int| !sole_comma(text@, at),
        },
{
    let mut found: Option<usize> = None;
    let mut i: usize = 0;
    while i < len
        invariant
            i <= len == text@.len(),
            match found {
                Some(at) => at < i && text@[at as int] == ',' && forall|j: int|
                    0 <= j < i && j != at ==> text@[j] != ',',
                None => forall|j: int| 0 <= j < i ==> text@[j] != ',',
            },
        decreases len - i,
    {
        let c = text.get_char(i);
        if c == ',' {
            match found {
                Some(at) => {
                    assert forall|other: int| !sole_comma(text@, other) by {
                        if other == at as int {
                            assert(text@[i as int] == ',');
                        } else {
                            assert(text@[at as int] == ',');
                        }
                    }
                    return None;
                },
                None => {
                    found = Some(i);
                },
            }
        }
        i += 1;
    }
    found
}

/// Reads one directory entry.
pub fn parse_endpoint(item: &str) -> (endpoint: Option<Endpoint>)
    ensures
        match endpoint {
            Some(parsed) => endpoint_of(item@) == Some(parsed@),
            None => endpoint_of(item@) is None,
        },
{
    let len = item.unicode_len();
    match find_sole_comma(item, len) {
        None => None,
        Some(at) => {
            proof {
                let chosen = choose|other: int| sole_comma(item@, other);
                assert(chosen == at);
            }
            let from = skip_spaces(item, at + 1, len);
            let to = drop_spaces(item, from, len);
            match parse_lifetime(item, from, to) {
                None => None,
                Some(lifetime) => {
                    let start = skip_spaces(item, 0, at);
                    let end = drop_spaces(item, start, at);
                    let address = item.substring_char(start, end).to_string();
                    Some(Endpoint { address, lifetime })
                },
            }
        },
    }
}

/// Reads a directory listing: the endpoints that its entries name, in the
/// listing's order.
pub fn parse_endpoints(items: &Vec<String>) -> (endpoints: Vec<Endpoint>)
    ensures
        views_of(endpoints@) == endpoints_of(texts_of(items@)),
{
    let mut endpoints: Vec<Endpoint> = Vec::new();
    let mut i: usize = 0;
    while i < items.len()
        invariant
            i <= items.len(),
            views_of(endpoints@) == endpoints_of(texts_of(items@).take(i as int)),
        decreases items.len() - i,
    {
        let ghost seen = texts_of(items@).take(i as int);
        let ghost next = texts_of(items@).take(i + 1);
        assert(next.drop_last() == seen);
        assert(next.last() == items@[i as int]@);
        let ghost before = endpoints@;
        match parse_endpoint(items[i].as_str()) {
            Some(endpoint) => {
                endpoints.push(endpoint);
                assert(views_of(endpoints@) == views_of(before).push(endpoint@));
            },
            None => {},
        }
        i += 1;
    }
    assert(texts_of(items@).take(i as int) == texts_of(items@));
    endpoints
}

/// The shortest lifetime among `endpoints`.
pub fn min_lifetime(endpoints: &Vec<Endpoint>) -> (shortest: u64)
    ensures
        shortest == shortest_lifetime(views_of(endpoints@)),
{
    let mut shortest = u64::MAX;
    let mut i: usize = 0;
    while i < endpoints.len()
        invariant
            i <= endpoints.len(),
            shortest == shortest_lifetime(views_of(endpoints@).take(i as int)),
        decreases endpoints.len() - i,
    {
        let ghost next = views_of(endpoints@).take(i + 1);
        assert(next.drop_last() == views_of(endpoints@).take(i as int));
        assert(next.last() == endpoints@[i as int]@);
        if endpoints[i].lifetime < shortest {
            shortest = endpoints[i].lifetime;
        }
        i += 1;
    }
    assert(views_of(endpoints@).take(i as int) == views_of(endpoints@));
    shortest
}

} // verus!
