//! Shared building blocks: text checks, error journals, identifiers and clock readings.

use vstd::prelude::*;

verus! {

/// The Unicode `White_Space` property, which `str::trim` strips.
pub open spec fn is_white_space(c: char) -> bool {
    let u = c as u32;
    ||| 0x09 <= u <= 0x0d
    ||| u == 0x20
    ||| u == 0x85
    ||| u == 0xa0
    ||| u == 0x1680
    ||| 0x2000 <= u <= 0x200a
    ||| u == 0x2028
    ||| u == 0x2029
    ||| u == 0x202f
    ||| u == 0x205f
    ||| u == 0x3000
}

/// A text is blank when nothing but white space is left once it is trimmed.
pub open spec fn blank(s: Seq<char>) -> bool {
    forall|i: int| 0 <= i < s.len() ==> #[trigger] is_white_space(s[i])
}

fn char_is_white_space(c: char) -> (b: bool)
    ensures
        b == is_white_space(c),
{
    let u = c as u32;
    (0x09 <= u && u <= 0x0d) || u == 0x20 || u == 0x85 || u == 0xa0 || u == 0x1680 || (0x2000
        <= u && u <= 0x200a) || u == 0x2028 || u == 0x2029 || u == 0x202f || u == 0x205f || u
        == 0x3000
}

/// Whether `s.trim()` is empty.
pub fn is_blank(s: &str) -> (b: bool)
    ensures
        b == blank(s@),
{
    broadcast use vstd::string::axiom_spec_iter;
    let mut all_white = true;
    for c in it: s.chars()
        invariant
            it.seq() == s@,
            all_white == (forall|i: int| 0 <= i < it.index() ==> #[trigger] is_white_space(s@[i])),
    {
        if !char_is_white_space(c) {
            all_white = false;
        }
    }
    all_white
}


/// The text of every string in `v`, in order.
pub open spec fn texts(v: Seq<String>) -> Seq<Seq<char>> {
    Seq::new(v.len(), |i: int| v[i]@)
}

/// An owned copy of `s`.
pub fn owned(s: &str) -> (r: String)
    ensures
        r@ == s@,
{
    broadcast use vstd::string::to_string_from_display_ensures_for_str;
    s.to_string()
}

/// The concatenation of `a` and `b`.
pub fn joined(a: &str, b: &str) -> (r: String)
    ensures
        r@ == a@ + b@,
{
    let mut r = owned(a);
    r.append(b);
    r
}

/// A copy of an optional text.
pub fn copy_text(s: &Option<String>) -> (r: Option<String>)
    ensures
        r == *s,
{
    match s {
        Some(t) => Some(t.clone()),
        None => None,
    }
}

/// Journal of error messages attached to a stored entry.
#[derive(Debug, Clone, PartialEq, Eq, Default)]
pub struct ExtraInfo {
    errors: Vec<String>,
}

impl ExtraInfo {
    /// The messages in the journal, oldest first.
    pub closed spec fn messages(&self) -> Seq<Seq<char>> {
        texts(self.errors@)
    }

    /// A journal holding exactly `errors`, in the given order.
    pub fn with_errors(errors: Vec<String>) -> (r: Self)
        ensures
            r.messages() == texts(errors@),
    {
        Self { errors }
    }

    /// A journal holding the single message `error`.
    pub fn with_error(error: &str) -> (r: Self)
        ensures
            r.messages() == seq![error@],
    {
        let mut errors = Vec::new();
        errors.push(owned(error));
        let r = Self::with_errors(errors);
        assert(r.messages() =~= seq![error@]);
        r
    }

    /// Appends `error` after the messages already recorded.
    pub fn add_error(&mut self, error: &str)
        ensures
            final(self).messages() == old(self).messages().push(error@),
    {
        self.errors.push(owned(error));
        assert(self.messages() =~= old(self).messages().push(error@));
    }

    /// The recorded messages, oldest first.
    pub fn errors(&self) -> (r: &[String])
        ensures
            texts(r@) == self.messages(),
    {
        self.errors.as_slice()
    }
}

/// Appends `error` to an existing journal, or starts a new one holding only `error`.
pub fn append_error(extra_info: Option<ExtraInfo>, error: &str) -> (r: ExtraInfo)
    ensures
        r.messages() == match extra_info {
            Some(info) => info.messages(),
            None => Seq::<Seq<char>>::empty(),
        }.push(error@),
{
    let mut info = match extra_info {
        Some(info) => info,
        None => ExtraInfo::with_errors(Vec::new()),
    };
    proof {
        if extra_info is None {
            assert(info.messages() =~= Seq::<Seq<char>>::empty());
        }
    }
    info.add_error(error);
    info
}

/// The errors one delivery attempt leaves behind: the failure to record its outcome, if
/// any, then the delivery failure, if any.
pub open spec fn outcome_errors<E>(delivered: Result<(), E>, recorded: Result<(), E>) -> Seq<E> {
    let report = match recorded {
        Ok(()) => Seq::<E>::empty(),
        Err(e) => seq![e],
    };
    match delivered {
        Ok(()) => report,
        Err(e) => report.push(e),
    }
}

/// The text of an optional reason.
pub open spec fn reason_text(reason: Option<String>) -> Option<Seq<char>> {
    match reason {
        Some(t) => Some(t@),
        None => None,
    }
}

/// The errors that a run of delivery attempts leaves behind, in order.
pub open spec fn outcomes_errors<E>(outcomes: Seq<(Result<(), E>, Result<(), E>)>) -> Seq<E>
    decreases outcomes.len(),
{
    if outcomes.len() == 0 {
        Seq::empty()
    } else {
        outcomes_errors(outcomes.drop_last()) + outcome_errors(outcomes.last().0, outcomes.last().1)
    }
}

/// One more attempt adds its errors at the end.
pub proof fn lemma_outcomes_errors_push<E>(outcomes: Seq<(Result<(), E>, Result<(), E>)>, next: (Result<(), E>, Result<(), E>))
    ensures
        outcomes_errors(outcomes.push(next)) == outcomes_errors(outcomes) + outcome_errors(next.0, next.1),
{
    assert(outcomes.push(next).drop_last() =~= outcomes);
}

/// The error a recording step reports, if any.
pub open spec fn recorded_errors<E>(recorded: Result<(), E>) -> Seq<E> {
    match recorded {
        Ok(_) => Seq::empty(),
        Err(e) => seq![e],
    }
}

/// The errors of several steps, one after another.
pub open spec fn joined_errors<E>(parts: Seq<Seq<E>>) -> Seq<E>
    decreases parts.len(),
{
    if parts.len() == 0 {
        Seq::empty()
    } else {
        joined_errors(parts.drop_last()) + parts.last()
    }
}

/// One more step adds its errors at the end.
pub proof fn lemma_joined_errors_push<E>(parts: Seq<Seq<E>>, next: Seq<E>)
    ensures
        joined_errors(parts.push(next)) == joined_errors(parts) + next,
{
    assert(parts.push(next).drop_last() =~= parts);
}

/// `r` reports the collected `errors`: `Ok` when there are none, else all of them.
pub open spec fn reports_errors<E>(errors: Seq<E>, r: Result<(), Vec<E>>) -> bool {
    match r {
        Ok(_) => errors.len() == 0,
        Err(v) => errors.len() > 0 && v@ == errors,
    }
}

/// Appends to `errors` what one delivery attempt leaves behind.
pub fn collect_outcome<E>(errors: &mut Vec<E>, delivered: Result<(), E>, recorded: Result<(), E>)
    ensures
        final(errors)@ == old(errors)@ + outcome_errors(delivered, recorded),
{
    match recorded {
        Ok(()) => {},
        Err(e) => errors.push(e),
    }
    match delivered {
        Ok(()) => {},
        Err(e) => errors.push(e),
    }
    assert(errors@ =~= old(errors)@ + outcome_errors(delivered, recorded));
}

/// Version bits of a UUID held as a 128-bit big-endian integer.
pub open spec fn uuid_version(id: u128) -> u128 {
    (id >> 76u128) & 0xfu128
}

/// A time `offset_ms` before `now`: the cutoff of a reservation timeout.
pub fn cutoff_before(now: i64, offset_ms: i64) -> (c: i64)
    requires
        -CLOCK_LIMIT < now < CLOCK_LIMIT,
        -0x4000_0000_0000_0000 <= offset_ms <= 0x4000_0000_0000_0000,
    ensures
        c == now - offset_ms,
{
    now - offset_ms
}

#[verifier::external_type_specification]
#[verifier::external_body]
pub struct ExSystemTimeError(std::time::SystemTimeError);

#[verifier::external_type_specification]
#[verifier::external_body]
pub struct ExTimestamp(uuid::Timestamp);

/// The time elapsed on the system clock since 1970 (`std::time::SystemTime::elapsed`,
/// called on `std::time::UNIX_EPOCH`): the duration, or, when the clock reads earlier than
/// 1970, the error that holds how much earlier. Nothing is promised of the value: it is
/// the clock's.
#[verifier::external_body]
fn epoch_elapsed() -> Result<core::time::Duration, std::time::SystemTimeError> {
    std::time::UNIX_EPOCH.elapsed()
}

/// How far the clock reads before the reference time (`std::time::SystemTimeError::duration`).
#[verifier::external_body]
fn clock_shortfall(error: &std::time::SystemTimeError) -> core::time::Duration {
    error.duration()
}

/// The whole milliseconds in a duration (`core::time::Duration::as_millis`). A duration
/// holds at most `u64::MAX` seconds and less than one second more, so the count is below
/// `(u64::MAX + 1) * 1000`.
#[verifier::external_body]
fn whole_millis(duration: &core::time::Duration) -> (millis: u128)
    ensures
        millis < 18446744073709551616000,
{
    duration.as_millis()
}

/// A UUID timestamp without counter (`uuid::Timestamp::from_unix` with `uuid::NoContext`)
/// for `seconds` and `subsec_nanos` since 1970. The timestamp is opaque here.
#[verifier::external_body]
fn unix_timestamp(seconds: u64, subsec_nanos: u32) -> uuid::Timestamp {
    uuid::Timestamp::from_unix(uuid::NoContext, seconds, subsec_nanos)
}

/// A version 7 UUID for a timestamp (`uuid::Uuid::new_v7`), as its 128-bit value.
///
/// Only the version bits are promised: the rest holds the timestamp's milliseconds and
/// random bits.
#[verifier::external_body]
fn uuid_v7_at(timestamp: uuid::Timestamp) -> (id: u128)
    ensures
        uuid_version(id) == 7,
{
    uuid::Uuid::new_v7(timestamp).as_u128()
}

/// A fresh time-ordered identifier: a version 7 UUID stamped with the system clock's
/// milliseconds since 1970, or with 1970 itself when the clock reads earlier.
pub fn new_uuid_v7() -> (id: u128)
    ensures
        uuid_version(id) == 7,
{
    let millis: u128 = match epoch_elapsed() {
        Ok(elapsed) => whole_millis(&elapsed),
        Err(_) => 0,
    };
    let seconds = (millis / 1000) as u64;
    let subsec_nanos = ((millis % 1000) * 1_000_000) as u32;
    uuid_v7_at(unix_timestamp(seconds, subsec_nanos))
}

/// Lowercase hexadecimal digit for a value below sixteen.
pub open spec fn hex_digit(n: u128) -> char {
    if n < 10 {
        (48 + n) as char
    } else {
        (87 + n) as char
    }
}

/// Position, among the 32 hex digits, of the character at `i` of the hyphenated form.
pub open spec fn digit_position(i: int) -> int {
    if i < 8 {
        i
    } else if i < 13 {
        i - 1
    } else if i < 18 {
        i - 2
    } else if i < 23 {
        i - 3
    } else {
        i - 4
    }
}

/// The hyphenated lowercase text of a UUID given by its 128-bit big-endian value.
pub open spec fn hyphenated(id: u128) -> Seq<char> {
    Seq::new(
        36,
        |i: int|
            if i == 8 || i == 13 || i == 18 || i == 23 {
                '-'
            } else {
                hex_digit((id >> ((31 - digit_position(i)) * 4) as u128) & 0xfu128)
            },
    )
}

/// The text `uuid::Uuid` displays for the identifier `id` (hyphenated, lowercase).
#[verifier::external_body]
pub fn uuid_text(id: u128) -> (r: String)
    ensures
        r@ == hyphenated(id),
{
    uuid::Uuid::from_u128(id).to_string()
}

/// What `uuid::Uuid::parse_str` makes of a text: the 128-bit value, or nothing when it
/// is not a UUID.
pub uninterp spec fn parsed_uuid(text: Seq<char>) -> Option<u128>;

/// Parses a UUID with `uuid::Uuid::parse_str`; errors become `None`.
#[verifier::external_body]
pub fn parse_uuid(text: &str) -> (r: Option<u128>)
    ensures
        r == parsed_uuid(text@),
{
    match uuid::Uuid::parse_str(text) {
        Ok(id) => Some(id.as_u128()),
        Err(_) => None,
    }
}

/// The decimal digits of a natural number.
pub open spec fn digits(n: nat) -> Seq<char>
    decreases n,
{
    if n < 10 {
        seq![(48 + n) as char]
    } else {
        digits(n / 10).push((48 + n % 10) as char)
    }
}

/// The decimal text of an integer, with a leading minus sign when negative.
pub open spec fn decimal(n: int) -> Seq<char> {
    if n < 0 {
        seq!['-'].add(digits((-n) as nat))
    } else {
        digits(n as nat)
    }
}

/// The decimal digit `d` as a one-character text.
fn digit_text(d: u32) -> (s: &'static str)
    requires
        d < 10,
    ensures
        s@ == seq![(48 + d) as char],
{
    match d {
        0 => {
            proof {
                reveal_strlit("0");
            }
            assert("0"@ =~= seq![(48 + d) as char]);
            "0"
        },
        1 => {
            proof {
                reveal_strlit("1");
            }
            assert("1"@ =~= seq![(48 + d) as char]);
            "1"
        },
        2 => {
            proof {
                reveal_strlit("2");
            }
            assert("2"@ =~= seq![(48 + d) as char]);
            "2"
        },
        3 => {
            proof {
                reveal_strlit("3");
            }
            assert("3"@ =~= seq![(48 + d) as char]);
            "3"
        },
        4 => {
            proof {
                reveal_strlit("4");
            }
            assert("4"@ =~= seq![(48 + d) as char]);
            "4"
        },
        5 => {
            proof {
                reveal_strlit("5");
            }
            assert("5"@ =~= seq![(48 + d) as char]);
            "5"
        },
        6 => {
            proof {
                reveal_strlit("6");
            }
            assert("6"@ =~= seq![(48 + d) as char]);
            "6"
        },
        7 => {
            proof {
                reveal_strlit("7");
            }
            assert("7"@ =~= seq![(48 + d) as char]);
            "7"
        },
        8 => {
            proof {
                reveal_strlit("8");
            }
            assert("8"@ =~= seq![(48 + d) as char]);
            "8"
        },
        _ => {
            proof {
                reveal_strlit("9");
            }
            assert("9"@ =~= seq![(48 + d) as char]);
            "9"
        },
    }
}

/// The decimal digits of `n`, most significant first.
fn digits_text(n: u32) -> (r: String)
    ensures
        r@ == digits(n as nat),
    decreases n,
{
    if n < 10 {
        owned(digit_text(n))
    } else {
        let mut r = digits_text(n / 10);
        r.append(digit_text(n % 10));
        r
    }
}

/// The decimal text of `n`, as `i32`'s `Display` writes it.
pub fn i32_text(n: i32) -> (r: String)
    ensures
        r@ == decimal(n as int),
{
    if n < 0 {
        let magnitude = (0 - (n as i64)) as u32;
        proof {
            reveal_strlit("-");
        }
        assert("-"@ =~= seq!['-']);
        joined("-", digits_text(magnitude).as_str())
    } else {
        digits_text(n as u32)
    }
}

/// Bound on every time the library handles, in milliseconds from the Unix epoch (about
/// 285,000 years either side).
pub const CLOCK_LIMIT: i64 = 9007199254740992;

/// A count of milliseconds held below `CLOCK_LIMIT`.
fn within_clock_limit(millis: u128) -> (t: i64)
    ensures
        0 <= t < CLOCK_LIMIT,
        millis < CLOCK_LIMIT ==> t == millis,
        millis >= CLOCK_LIMIT ==> t == CLOCK_LIMIT - 1,
{
    if millis < CLOCK_LIMIT as u128 {
        millis as i64
    } else {
        CLOCK_LIMIT - 1
    }
}

/// The current time on the system clock, in milliseconds since the Unix epoch: negative
/// when the clock reads earlier than 1970, and held just inside `CLOCK_LIMIT` either way.
pub fn now_millis() -> (t: i64)
    ensures
        -CLOCK_LIMIT < t < CLOCK_LIMIT,
{
    match epoch_elapsed() {
        Ok(elapsed) => within_clock_limit(whole_millis(&elapsed)),
        Err(error) => -within_clock_limit(whole_millis(&clock_shortfall(&error))),
    }
}

} // verus!
