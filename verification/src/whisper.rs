//! Whispers: short, ephemeral messages between fleet agents, their kinds, their
//! expiry and the tags under which they are stored in a PLATO room.

use vstd::prelude::*;
use vstd::std_specs::cmp::PartialEqSpecImpl;
use crate::clock::{seconds_since, seconds_between, system_time_since_epoch, Timestamp, TimestampView, NANOS_PER_SEC};
use crate::numfmt::{chars_to_string, hex_digit, hex_text, push_hex, pow16, lemma_hex_text_denotes, lemma_hex_text_shape, all_hex_digits, hex_value};

verus! {

/// What a whisper says. Real-valued quantities (health, load, confidence,
/// trust score) are kept as the IEEE-754 bit patterns of their `f64` values
/// (`f64::to_bits`); the protocol's logic only carries them along. Two kinds
/// compare equal as the `f64` fields would: field by field, with those
/// quantities equal as IEEE-754 numbers (`0.0 == -0.0`, `NaN` equal to nothing).
#[derive(Clone, Debug)]
pub enum WhisperType {
    Status { health: u64, load: u64 },
    Discovery { service: String, endpoint: String },
    Help { question: String, tags: Vec<String> },
    Insight { summary: String, confidence: u64, source_theorem: Option<String> },
    Trust { agent: String, trust_score: u64 },
    Alert { severity: String, message: String },
}

/// `a` and `b` are bit patterns of `f64` values that are equal as IEEE-754
/// numbers: neither is a NaN, and they are the same pattern or both zeros.
pub open spec fn f64_bits_equal(a: u64, b: u64) -> bool {
    &&& !f64_bits_nan(a)
    &&& !f64_bits_nan(b)
    &&& (a == b || (a % 0x8000_0000_0000_0000 == 0 && b % 0x8000_0000_0000_0000 == 0))
}

/// `a` is the bit pattern of a NaN: all exponent bits set, a non-zero fraction.
pub open spec fn f64_bits_nan(a: u64) -> bool {
    (a / 0x10_0000_0000_0000) % 0x800 == 0x7ff && a % 0x10_0000_0000_0000 != 0
}

/// Whether the bit patterns `a` and `b` are of equal `f64` values.
pub fn f64_bits_eq(a: u64, b: u64) -> (res: bool)
    ensures
        res == f64_bits_equal(a, b),
{
    let a_nan = (a / 0x10_0000_0000_0000) % 0x800 == 0x7ff && a % 0x10_0000_0000_0000 != 0;
    let b_nan = (b / 0x10_0000_0000_0000) % 0x800 == 0x7ff && b % 0x10_0000_0000_0000 != 0;
    !a_nan && !b_nan && (a == b || (a % 0x8000_0000_0000_0000 == 0 && b % 0x8000_0000_0000_0000 == 0))
}

/// The characters of each string of a list.
pub open spec fn texts(v: Vec<String>) -> Seq<Seq<char>> {
    v@.map_values(|s: String| s@)
}

/// The characters of an optional string.
pub open spec fn opt_chars(o: Option<String>) -> Option<Seq<char>> {
    match o {
        Some(s) => Some(s@),
        None => None,
    }
}

/// Two kinds are equal: the same variant, equal strings, equal lists of
/// strings, and real-valued quantities equal as IEEE-754 numbers.
pub open spec fn whisper_types_equal(x: WhisperType, y: WhisperType) -> bool {
    match (x, y) {
        (WhisperType::Status { health: h1, load: l1 }, WhisperType::Status { health: h2, load: l2 }) =>
            f64_bits_equal(h1, h2) && f64_bits_equal(l1, l2),
        (WhisperType::Discovery { service: s1, endpoint: e1 }, WhisperType::Discovery { service: s2, endpoint: e2 }) =>
            s1@ == s2@ && e1@ == e2@,
        (WhisperType::Help { question: q1, tags: t1 }, WhisperType::Help { question: q2, tags: t2 }) =>
            q1@ == q2@ && texts(t1) == texts(t2),
        (
            WhisperType::Insight { summary: s1, confidence: c1, source_theorem: o1 },
            WhisperType::Insight { summary: s2, confidence: c2, source_theorem: o2 },
        ) => s1@ == s2@ && f64_bits_equal(c1, c2) && opt_chars(o1) == opt_chars(o2),
        (WhisperType::Trust { agent: a1, trust_score: t1 }, WhisperType::Trust { agent: a2, trust_score: t2 }) =>
            a1@ == a2@ && f64_bits_equal(t1, t2),
        (WhisperType::Alert { severity: s1, message: m1 }, WhisperType::Alert { severity: s2, message: m2 }) =>
            s1@ == s2@ && m1@ == m2@,
        _ => false,
    }
}

fn strings_eq(a: &Vec<String>, b: &Vec<String>) -> (res: bool)
    ensures
        res == (texts(*a) == texts(*b)),
{
    if a.len() != b.len() {
        assert(texts(*a).len() != texts(*b).len());
        return false;
    }
    let mut i: usize = 0;
    while i < a.len()
        invariant
            i <= a.len(),
            a.len() == b.len(),
            forall|j: int| 0 <= j < i ==> a@[j]@ == b@[j]@,
        decreases a.len() - i,
    {
        if a[i] != b[i] {
            assert(texts(*a)[i as int] != texts(*b)[i as int]);
            return false;
        }
        i = i + 1;
    }
    assert(texts(*a) =~= texts(*b));
    true
}

fn opt_strings_eq(a: &Option<String>, b: &Option<String>) -> (res: bool)
    ensures
        res == (opt_chars(*a) == opt_chars(*b)),
{
    match (a, b) {
        (Some(x), Some(y)) => *x == *y,
        (None, None) => true,
        _ => false,
    }
}

impl PartialEq for WhisperType {
    fn eq(&self, other: &WhisperType) -> (res: bool) {
        match (self, other) {
            (WhisperType::Status { health: h1, load: l1 }, WhisperType::Status { health: h2, load: l2 }) =>
                f64_bits_eq(*h1, *h2) && f64_bits_eq(*l1, *l2),
            (WhisperType::Discovery { service: s1, endpoint: e1 }, WhisperType::Discovery { service: s2, endpoint: e2 }) =>
                *s1 == *s2 && *e1 == *e2,
            (WhisperType::Help { question: q1, tags: t1 }, WhisperType::Help { question: q2, tags: t2 }) =>
                *q1 == *q2 && strings_eq(t1, t2),
            (
                WhisperType::Insight { summary: s1, confidence: c1, source_theorem: o1 },
                WhisperType::Insight { summary: s2, confidence: c2, source_theorem: o2 },
            ) => *s1 == *s2 && f64_bits_eq(*c1, *c2) && opt_strings_eq(o1, o2),
            (WhisperType::Trust { agent: a1, trust_score: t1 }, WhisperType::Trust { agent: a2, trust_score: t2 }) =>
                *a1 == *a2 && f64_bits_eq(*t1, *t2),
            (WhisperType::Alert { severity: s1, message: m1 }, WhisperType::Alert { severity: s2, message: m2 }) =>
                *s1 == *s2 && *m1 == *m2,
            _ => false,
        }
    }
}

impl PartialEqSpecImpl for WhisperType {
    open spec fn obeys_eq_spec() -> bool {
        true
    }

    open spec fn eq_spec(&self, other: &WhisperType) -> bool {
        whisper_types_equal(*self, *other)
    }
}

/// The name of each kind of whisper, as it appears in tags and on the command line.
pub open spec fn variant_name_of(t: WhisperType) -> Seq<char> {
    match t {
        WhisperType::Status { .. } => "status"@,
        WhisperType::Discovery { .. } => "discovery"@,
        WhisperType::Help { .. } => "help"@,
        WhisperType::Insight { .. } => "insight"@,
        WhisperType::Trust { .. } => "trust"@,
        WhisperType::Alert { .. } => "alert"@,
    }
}

/// The lifetime, in seconds, that each kind of whisper gets when none is asked for.
pub open spec fn default_ttl_of(t: WhisperType) -> u64 {
    match t {
        WhisperType::Status { .. } => 60,
        WhisperType::Discovery { .. } => 300,
        WhisperType::Help { .. } => 1800,
        WhisperType::Insight { .. } => 14400,
        WhisperType::Trust { .. } => 300,
        WhisperType::Alert { .. } => 60,
    }
}

impl WhisperType {
    /// The kind's name: `status`, `discovery`, `help`, `insight`, `trust` or `alert`.
    pub fn variant_name(&self) -> (res: &'static str)
        ensures
            res@ == variant_name_of(*self),
    {
        match self {
            WhisperType::Status { .. } => "status",
            WhisperType::Discovery { .. } => "discovery",
            WhisperType::Help { .. } => "help",
            WhisperType::Insight { .. } => "insight",
            WhisperType::Trust { .. } => "trust",
            WhisperType::Alert { .. } => "alert",
        }
    }

    /// Default lifetime in seconds: status and alert 60, trust and discovery
    /// 300, help 1800, insight 14400.
    pub fn default_ttl_seconds(&self) -> (res: u64)
        ensures
            res == default_ttl_of(*self),
    {
        match self {
            WhisperType::Status { .. } => 60,
            WhisperType::Discovery { .. } => 300,
            WhisperType::Help { .. } => 1800,
            WhisperType::Insight { .. } => 14400,
            WhisperType::Trust { .. } => 300,
            WhisperType::Alert { .. } => 60,
        }
    }
}

/// A whisper message between fleet agents.
#[derive(Clone, Debug)]
pub struct Whisper {
    pub id: String,
    pub from: String,
    /// The addressee of a unicast whisper; `None` for multicast and broadcast.
    pub to: Option<String>,
    pub whisper_type: WhisperType,
    /// When the whisper was made.
    pub timestamp: Timestamp,
    pub ttl_seconds: u64,
}

impl Whisper {
    /// At instant `now`, the whisper is older than its lifetime: its age in
    /// whole seconds (truncated toward zero) is non-negative and greater than
    /// `ttl_seconds`. A whisper stamped after `now` (a sender's clock ahead of
    /// ours) has a negative age and has not outlived anything.
    pub open spec fn expired_at(self, now: TimestampView) -> bool {
        seconds_between(now, self.timestamp@) >= 0 && seconds_between(now, self.timestamp@) > self.ttl_seconds
    }

    /// The tags under which the whisper is stored: `whisper`, `type:<kind>`,
    /// and `unicast` when it has an addressee.
    pub open spec fn tags_of(self) -> Seq<Seq<char>> {
        let base = seq!["whisper"@, "type:"@ + variant_name_of(self.whisper_type)];
        if self.to is Some {
            base.push("unicast"@)
        } else {
            base
        }
    }

    /// A new whisper from `from` to `to` (`None`: to the room), identified by a
    /// fresh clock-based identifier and stamped with the current UTC time;
    /// `None` when the clock cannot be read (it reads before the epoch or past
    /// the UTC range).
    pub fn new(from: String, to: Option<String>, whisper_type: WhisperType, ttl_seconds: u64) -> (res: Option<Whisper>)
        ensures
            res matches Some(w) ==> {
                &&& w.from == from
                &&& w.to == to
                &&& w.whisper_type == whisper_type
                &&& w.ttl_seconds == ttl_seconds
                &&& w.timestamp@.valid()
                &&& is_clock_uuid(w.id@)
            },
    {
        let id = match uuid_v4() {
            Some(id) => id,
            None => return None,
        };
        let timestamp = match Timestamp::now() {
            Some(t) => t,
            None => return None,
        };
        Some(Whisper { id, from, to, whisper_type, timestamp, ttl_seconds })
    }

    /// Whether the whisper has expired at instant `now`.
    pub fn is_expired_at(&self, now: &Timestamp) -> (res: bool)
        ensures
            res == self.expired_at(now@),
    {
        let age = seconds_since(now, &self.timestamp);
        age >= 0 && (age as u64) > self.ttl_seconds
    }

    /// Whether the whisper has expired, judged at the current UTC time: it
    /// has, exactly when it has at some valid instant (the one read from the
    /// clock). `None` when the clock cannot be read.
    pub fn is_expired(&self) -> (res: Option<bool>)
        ensures
            res matches Some(b) ==> exists|now: TimestampView|
                now.valid() && now.secs >= 0 && !now.is_leap() && b == self.expired_at(now),
    {
        match Timestamp::now() {
            Some(now) => Some(self.is_expired_at(&now)),
            None => None,
        }
    }

    /// The tags under which the whisper is stored.
    pub fn tags(&self) -> (res: Vec<String>)
        ensures
            res@.map_values(|s: String| s@) == self.tags_of(),
    {
        let mut tags: Vec<String> = Vec::new();
        tags.push(String::from_str("whisper"));
        tags.push(String::from_str("type:").concat(self.whisper_type.variant_name()));
        if self.to.is_some() {
            tags.push(String::from_str("unicast"));
        }
        assert(tags@.map_values(|s: String| s@) =~= self.tags_of());
        tags
    }
}

/// A whisper is not expired at the instant it was made. Away from leap
/// seconds, it is not expired at any instant before it was made either, and at
/// an instant not before it was made it is expired exactly when its age in
/// whole seconds exceeds its lifetime.
pub proof fn lemma_expiry_by_age(w: Whisper, now: TimestampView)
    ensures
        !w.expired_at(w.timestamp@),
        !now.is_leap() && !w.timestamp@.is_leap() && now.total_nanos() <= w.timestamp@.total_nanos()
            ==> !w.expired_at(now),
        !now.is_leap() && !w.timestamp@.is_leap() && now.total_nanos() >= w.timestamp@.total_nanos()
            ==> (w.expired_at(now) <==> seconds_between(now, w.timestamp@) > w.ttl_seconds),
{
    crate::clock::lemma_seconds_between_antisymmetric(w.timestamp@, w.timestamp@);
    if !now.is_leap() && !w.timestamp@.is_leap() {
        if now.total_nanos() <= w.timestamp@.total_nanos() {
            crate::clock::lemma_seconds_between_monotone(now, w.timestamp@, w.timestamp@);
        } else {
            crate::clock::lemma_seconds_between_monotone(w.timestamp@, now, w.timestamp@);
        }
    }
}

/// Away from leap seconds, once expired a whisper stays expired at every later
/// instant.
pub proof fn lemma_expiry_is_permanent(w: Whisper, t1: TimestampView, t2: TimestampView)
    requires
        t1.total_nanos() <= t2.total_nanos(),
        !t1.is_leap(),
        !t2.is_leap(),
        !w.timestamp@.is_leap(),
        w.expired_at(t1),
    ensures
        w.expired_at(t2),
{
    crate::clock::lemma_seconds_between_monotone(t1, t2, w.timestamp@);
}

/// Each kind has its own name, and a name determines the kind.
pub proof fn lemma_variant_names_distinct(a: WhisperType, b: WhisperType)
    ensures
        variant_name_of(a) == variant_name_of(b) <==> variant_index(a) == variant_index(b),
{
    reveal_strlit("status");
    reveal_strlit("discovery");
    reveal_strlit("help");
    reveal_strlit("insight");
    reveal_strlit("trust");
    reveal_strlit("alert");
    let (na, nb) = (variant_name_of(a), variant_name_of(b));
    if variant_index(a) != variant_index(b) {
        assert(na.len() != nb.len() || na[0] != nb[0]);
    }
}

/// The default lifetime depends on the kind alone, whatever its fields: every
/// status and alert gets 60 s, every trust and discovery 5 min, every help
/// 30 min, every insight 4 h; and two kinds of the same name get the same
/// default, which is also the lifetime a whisper gets when none is asked for.
pub proof fn lemma_default_ttl_by_kind(a: WhisperType, b: WhisperType)
    ensures
        a is Status ==> default_ttl_of(a) == 60,
        a is Alert ==> default_ttl_of(a) == 60,
        a is Trust ==> default_ttl_of(a) == 5 * 60,
        a is Discovery ==> default_ttl_of(a) == 5 * 60,
        a is Help ==> default_ttl_of(a) == 30 * 60,
        a is Insight ==> default_ttl_of(a) == 4 * 60 * 60,
        variant_name_of(a) == variant_name_of(b) ==> default_ttl_of(a) == default_ttl_of(b),
{
    lemma_variant_names_distinct(a, b);
}

/// The position of a whisper's kind in the list of kinds.
pub open spec fn variant_index(t: WhisperType) -> int {
    match t {
        WhisperType::Status { .. } => 0,
        WhisperType::Discovery { .. } => 1,
        WhisperType::Help { .. } => 2,
        WhisperType::Insight { .. } => 3,
        WhisperType::Trust { .. } => 4,
        WhisperType::Alert { .. } => 5,
    }
}

/// Every whisper carries the tags `whisper` and `type:<kind>`, and carries
/// `unicast` exactly when it has an addressee.
pub proof fn lemma_tags(w: Whisper)
    ensures
        w.tags_of().contains("whisper"@),
        w.tags_of().contains("type:"@ + variant_name_of(w.whisper_type)),
        w.tags_of().contains("unicast"@) <==> w.to is Some,
{
    reveal_strlit("whisper");
    reveal_strlit("unicast");
    reveal_strlit("type:");
    let t = w.tags_of();
    assert(t[0] == "whisper"@);
    assert(t[1] == "type:"@ + variant_name_of(w.whisper_type));
    if w.to is Some {
        assert(t[2] == "unicast"@);
    } else {
        if t.contains("unicast"@) {
            let i = choose|i: int| 0 <= i < t.len() && t[i] == "unicast"@;
            assert(i == 0 || i == 1);
            assert(t[i][0] != 'u');
        }
    }
}

/// The multiplier that scrambles the clock reading into the random part of an
/// identifier.
pub const UUID_SCRAMBLE: u64 = 0x5deace66du64;

/// The low 64 bits of a clock reading of `now` nanoseconds.
pub open spec fn uuid_reading(now: nat) -> nat {
    now % 0x1_0000_0000_0000_0000nat
}

/// The scrambled bits: the low 64 bits of the reading times `0x5deace66d`.
pub open spec fn uuid_scrambled(now: nat) -> nat {
    (uuid_reading(now) * (UUID_SCRAMBLE as nat)) % 0x1_0000_0000_0000_0000nat
}

/// The five groups of the identifier for a reading of `now` nanoseconds, as
/// numbers. With `n` the reading's low 64 bits and `r` its scrambled bits:
/// the first two groups are `n`'s top 32 and next 16 bits; the third is the
/// version `4` and `n`'s next 12 bits; the fourth is the variant bits `10`,
/// `n`'s low 4 bits and `r`'s top 10 bits; the fifth is `r`'s low 48 bits.
#[verifier::opaque]
pub open spec fn uuid_group(now: nat, i: int) -> nat {
    let n = uuid_reading(now);
    let r = uuid_scrambled(now);
    if i == 0 {
        n / 0x1_0000_0000nat
    } else if i == 1 {
        (n / 0x1_0000nat) % 0x1_0000nat
    } else if i == 2 {
        0x4000nat + (n % 0x1_0000nat) / 16
    } else if i == 3 {
        0x8000nat + (n % 16) * 0x400nat + r / 0x40_0000_0000_0000nat
    } else {
        r % 0x1_0000_0000_0000nat
    }
}

/// The identifier made from a clock reading of `now` nanoseconds since the
/// epoch: a UUID of version 4 in its canonical form, five groups of 8, 4, 4, 4
/// and 12 lower-case hexadecimal digits joined by `-`.
pub open spec fn uuid_text(now: nat) -> Seq<char> {
    hex_text(uuid_group(now, 0), 8) + seq!['-'] + hex_text(uuid_group(now, 1), 4) + seq!['-']
        + hex_text(uuid_group(now, 2), 4) + seq!['-'] + hex_text(uuid_group(now, 3), 4) + seq!['-']
        + hex_text(uuid_group(now, 4), 12)
}

/// `s` is the identifier of some reading of the system clock.
pub open spec fn is_clock_uuid(s: Seq<char>) -> bool {
    exists|secs: u64, nanos: u32|
        nanos < NANOS_PER_SEC && s == #[trigger] uuid_text((secs * 1_000_000_000 + nanos) as nat)
}

proof fn lemma_pow16_values()
    ensures
        pow16(4) == 0x1_0000nat,
        pow16(8) == 0x1_0000_0000nat,
        pow16(12) == 0x1_0000_0000_0000nat,
{
    reveal_with_fuel(pow16, 13);
}

/// The identifier for a clock reading of `now` nanoseconds since the epoch.
pub fn uuid_from_nanos(now: u128) -> (res: String)
    ensures
        res@ == uuid_text(now as nat),
{
    let n: u64 = (now % 0x1_0000_0000_0000_0000u128) as u64;
    assert(n as u128 * UUID_SCRAMBLE as u128 <= 0xffff_ffff_ffff_ffff * 0x5deace66d) by (nonlinear_arith)
        requires
            n <= 0xffff_ffff_ffff_ffffu64,
            UUID_SCRAMBLE == 0x5deace66du64,
    ;
    let r: u64 = ((n as u128 * UUID_SCRAMBLE as u128) % 0x1_0000_0000_0000_0000u128) as u64;
    proof {
        lemma_pow16_values();
        reveal(uuid_group);
    }
    assert(n == uuid_reading(now as nat));
    assert(r == uuid_scrambled(now as nat));
    let g2: u64 = 0x4000u64 + (n % 0x1_0000u64) / 16;
    let g3: u64 = 0x8000u64 + (n % 16) * 0x400u64 + r / 0x40_0000_0000_0000u64;
    let mut chars: Vec<char> = Vec::new();
    push_hex(&mut chars, n / 0x1_0000_0000u64, 8);
    chars.push('-');
    push_hex(&mut chars, (n / 0x1_0000u64) % 0x1_0000u64, 4);
    chars.push('-');
    push_hex(&mut chars, g2, 4);
    chars.push('-');
    push_hex(&mut chars, g3, 4);
    chars.push('-');
    push_hex(&mut chars, r % 0x1_0000_0000_0000u64, 12);
    assert(chars@ =~= uuid_text(now as nat));
    chars_to_string(chars)
}

/// A fresh identifier made from the system clock's reading in nanoseconds
/// since the epoch: a UUID of version 4. `None` when the clock reads before
/// the epoch.
pub fn uuid_v4() -> (res: Option<String>)
    ensures
        res matches Some(s) ==> is_clock_uuid(s@),
{
    match system_time_since_epoch() {
        None => None,
        Some((secs, nanos)) => {
            let now: u128 = secs as u128 * 1_000_000_000u128 + nanos as u128;
            let res = uuid_from_nanos(now);
            assert(res@ == uuid_text((secs * 1_000_000_000 + nanos) as nat));
            Some(res)
        },
    }
}

proof fn lemma_uuid_groups_fit(now: nat)
    ensures
        uuid_group(now, 0) < pow16(8),
        uuid_group(now, 1) < pow16(4),
        0x4000 <= uuid_group(now, 2) < 0x5000,
        0x8000 <= uuid_group(now, 3) < 0xc000,
        uuid_group(now, 4) < pow16(12),
{
    reveal(uuid_group);
    lemma_pow16_values();
    let r = uuid_scrambled(now);
    assert(r / 0x40_0000_0000_0000nat < 0x400) by {
        vstd::arithmetic::div_mod::lemma_div_is_ordered(
            r as int,
            0x1_0000_0000_0000_0000int - 1,
            0x40_0000_0000_0000int,
        );
    }
}

/// The leading digit of a four-digit rendering is that of the top nibble.
proof fn lemma_hex4_leading_digit(v: nat)
    ensures
        hex_text(v, 4)[0] == hex_digit(v / 16 / 16 / 16 % 16),
{
    reveal_with_fuel(hex_text, 5);
}

/// Every identifier is a canonical UUID of version 4: 36 characters, five
/// groups of 8, 4, 4, 4 and 12 lower-case hexadecimal digits joined by `-`,
/// the third group starting with the version digit `4` and the fourth with a
/// variant digit `8`, `9`, `a` or `b`.
pub proof fn lemma_uuid_shape(now: nat)
    ensures
        uuid_text(now).len() == 36,
        uuid_text(now)[8] == '-' && uuid_text(now)[13] == '-' && uuid_text(now)[18] == '-'
            && uuid_text(now)[23] == '-',
        uuid_text(now)[14] == '4',
        uuid_text(now)[19] == '8' || uuid_text(now)[19] == '9' || uuid_text(now)[19] == 'a'
            || uuid_text(now)[19] == 'b',
        all_hex_digits(uuid_text(now).subrange(0, 8)),
        all_hex_digits(uuid_text(now).subrange(9, 13)),
        all_hex_digits(uuid_text(now).subrange(14, 18)),
        all_hex_digits(uuid_text(now).subrange(19, 23)),
        all_hex_digits(uuid_text(now).subrange(24, 36)),
{
    let g0 = hex_text(uuid_group(now, 0), 8);
    let g1 = hex_text(uuid_group(now, 1), 4);
    let g2 = hex_text(uuid_group(now, 2), 4);
    let g3 = hex_text(uuid_group(now, 3), 4);
    let g4 = hex_text(uuid_group(now, 4), 12);
    lemma_hex_text_shape(uuid_group(now, 0), 8);
    lemma_hex_text_shape(uuid_group(now, 1), 4);
    lemma_hex_text_shape(uuid_group(now, 2), 4);
    lemma_hex_text_shape(uuid_group(now, 3), 4);
    lemma_hex_text_shape(uuid_group(now, 4), 12);
    lemma_uuid_groups_fit(now);
    let u = uuid_text(now);
    assert(u =~= g0 + seq!['-'] + g1 + seq!['-'] + g2 + seq!['-'] + g3 + seq!['-'] + g4);
    assert(u.subrange(0, 8) =~= g0);
    assert(u.subrange(9, 13) =~= g1);
    assert(u.subrange(14, 18) =~= g2);
    assert(u.subrange(19, 23) =~= g3);
    assert(u.subrange(24, 36) =~= g4);
    lemma_hex4_leading_digit(uuid_group(now, 2));
    lemma_hex4_leading_digit(uuid_group(now, 3));
    let v2 = uuid_group(now, 2);
    let v3 = uuid_group(now, 3);
    assert(v2 / 16 / 16 / 16 % 16 == 4);
    assert(8 <= v3 / 16 / 16 / 16 % 16 <= 11);
}

/// The first four groups of an identifier read back as their numbers.
proof fn lemma_uuid_groups_readable(now: nat)
    ensures
        hex_value(uuid_text(now).subrange(0, 8)) == uuid_group(now, 0),
        hex_value(uuid_text(now).subrange(9, 13)) == uuid_group(now, 1),
        hex_value(uuid_text(now).subrange(14, 18)) == uuid_group(now, 2),
        hex_value(uuid_text(now).subrange(19, 23)) == uuid_group(now, 3),
{
    lemma_pow16_values();
    lemma_uuid_groups_fit(now);
    let g0 = hex_text(uuid_group(now, 0), 8);
    let g1 = hex_text(uuid_group(now, 1), 4);
    let g2 = hex_text(uuid_group(now, 2), 4);
    let g3 = hex_text(uuid_group(now, 3), 4);
    let g4 = hex_text(uuid_group(now, 4), 12);
    lemma_hex_text_shape(uuid_group(now, 0), 8);
    lemma_hex_text_shape(uuid_group(now, 1), 4);
    lemma_hex_text_shape(uuid_group(now, 2), 4);
    lemma_hex_text_shape(uuid_group(now, 3), 4);
    lemma_hex_text_shape(uuid_group(now, 4), 12);
    let u = uuid_text(now);
    assert(u =~= g0 + seq!['-'] + g1 + seq!['-'] + g2 + seq!['-'] + g3 + seq!['-'] + g4);
    assert(u.subrange(0, 8) =~= g0);
    assert(u.subrange(9, 13) =~= g1);
    assert(u.subrange(14, 18) =~= g2);
    assert(u.subrange(19, 23) =~= g3);
    lemma_hex_text_denotes(uuid_group(now, 0), 8);
    lemma_hex_text_denotes(uuid_group(now, 1), 4);
    lemma_hex_text_denotes(uuid_group(now, 2), 4);
    lemma_hex_text_denotes(uuid_group(now, 3), 4);
}

/// The first four groups together hold all 64 bits of the reading.
proof fn lemma_reading_from_groups(a: nat, b: nat)
    requires
        uuid_group(a, 0) == uuid_group(b, 0),
        uuid_group(a, 1) == uuid_group(b, 1),
        uuid_group(a, 2) == uuid_group(b, 2),
        uuid_group(a, 3) == uuid_group(b, 3),
    ensures
        uuid_reading(a) == uuid_reading(b),
{
    reveal(uuid_group);
    let (ra, rb) = (uuid_scrambled(a), uuid_scrambled(b));
    vstd::arithmetic::div_mod::lemma_div_is_ordered(ra as int, 0x1_0000_0000_0000_0000int - 1, 0x40_0000_0000_0000int);
    vstd::arithmetic::div_mod::lemma_div_is_ordered(rb as int, 0x1_0000_0000_0000_0000int - 1, 0x40_0000_0000_0000int);
    let x = uuid_reading(a);
    let y = uuid_reading(b);
    assert(x % 16 == y % 16);
    let xu = x as u64;
    let yu = y as u64;
    assert(xu == yu) by (bit_vector)
        requires
            xu / 0x1_0000_0000 == yu / 0x1_0000_0000,
            (xu / 0x1_0000) % 0x1_0000 == (yu / 0x1_0000) % 0x1_0000,
            (xu % 0x1_0000) / 16 == (yu % 0x1_0000) / 16,
            xu % 16 == yu % 16,
    ;
}

/// Two clock readings give the same identifier exactly when their low 64 bits
/// agree: the identifier is a function of the reading alone, and distinct
/// readings (modulo `2^64`) give distinct identifiers.
pub proof fn lemma_uuid_distinct(a: nat, b: nat)
    ensures
        uuid_text(a) == uuid_text(b) <==> uuid_reading(a) == uuid_reading(b),
{
    if uuid_text(a) == uuid_text(b) {
        lemma_uuid_groups_readable(a);
        lemma_uuid_groups_readable(b);
        lemma_reading_from_groups(a, b);
    }
    if uuid_reading(a) == uuid_reading(b) {
        reveal(uuid_group);
        assert(forall|i: int| uuid_group(a, i) == uuid_group(b, i));
        assert(uuid_text(a) =~= uuid_text(b));
    }
}

} // verus!
