//! Human-readable formatting of time durations in several styles and languages.
//!
//! A `HumanDuration` wraps a duration together with a `DurationFormat` and a
//! `Language`; `to_string` renders it.  Every style is specified below as a
//! function of the duration's components, so the rendered text is fixed by the
//! duration, the style and the language (the `Random` choices excepted).
use std::time::Duration;
use vstd::prelude::*;
use vstd::string::*;

use rand::Rng as _;

use crate::text::{
    append_string, dec, dec_padded, join, lemma_dec_nonempty, lemma_join_empty, lemma_join_push,
    piece_if, u64_to_padded_string, u64_to_string,
};

verus! {

/// Display style of a duration.
#[derive(Debug, Clone, Copy, PartialEq, Eq, Structural)]
pub enum DurationFormat {
    /// Picks a style from the size of the duration.
    Auto,
    /// `1h2m3s`
    Compact,
    /// `1 hour 2 minutes 3 seconds`
    Standard,
    /// `1 hour, 2 minutes, 3.000 seconds`
    Detailed,
    /// `PT1H2M3S`
    ISO8601,
    /// `about 5 minutes`
    Fuzzy,
    /// `01:02:03.456`
    Numeric,
    /// `H:1 M:2 S:3 ms:456`
    Verbose,
    /// A style drawn at random for each rendering.
    Random,
}

/// Language of unit names.
#[derive(Debug, Clone, Copy, PartialEq, Eq, Structural)]
pub enum Language {
    English,
    Chinese,
    Japanese,
    Spanish,
    German,
    /// A language drawn at random for each rendering.
    Random,
}

/// Time unit used in formatting.
#[derive(Debug, Clone, Copy, PartialEq, Eq, Structural)]
pub enum TimeUnit {
    Day,
    Hour,
    Minute,
    Second,
    Millisecond,
    Microsecond,
}

/// Localized names of one time unit.
#[derive(Clone, Copy)]
pub struct UnitLocale {
    pub singular: &'static str,
    pub plural: &'static str,
    pub short: &'static str,
    pub fuzzy_prefix: &'static str,
}

impl UnitLocale {
    /// A locale with distinct singular and plural forms.
    pub fn new(
        singular: &'static str,
        plural: &'static str,
        short: &'static str,
        fuzzy_prefix: &'static str,
    ) -> (r: Self)
        ensures
            r == (UnitLocale { singular, plural, short, fuzzy_prefix }),
    {
        UnitLocale { singular, plural, short, fuzzy_prefix }
    }

    /// A locale whose singular and plural forms coincide.
    pub fn same(word: &'static str, short: &'static str, fuzzy_prefix: &'static str) -> (r: Self)
        ensures
            r == (UnitLocale { singular: word, plural: word, short, fuzzy_prefix }),
    {
        UnitLocale { singular: word, plural: word, short, fuzzy_prefix }
    }
}

/// The table of unit names for each (non-random) language.
pub open spec fn spec_unit_locale(language: Language, unit: TimeUnit) -> UnitLocale {
    match (language, unit) {
        (Language::Chinese, TimeUnit::Day) => UnitLocale { singular: "天", plural: "天", short: "天", fuzzy_prefix: "大约" },
        (Language::Chinese, TimeUnit::Hour) => UnitLocale { singular: "小时", plural: "小时", short: "时", fuzzy_prefix: "大约" },
        (Language::Chinese, TimeUnit::Minute) => UnitLocale { singular: "分钟", plural: "分钟", short: "分", fuzzy_prefix: "大约" },
        (Language::Chinese, TimeUnit::Second) => UnitLocale { singular: "秒", plural: "秒", short: "秒", fuzzy_prefix: "大约" },
        (Language::Chinese, TimeUnit::Millisecond) => UnitLocale { singular: "毫秒", plural: "毫秒", short: "毫秒", fuzzy_prefix: "" },
        (Language::Chinese, TimeUnit::Microsecond) => UnitLocale { singular: "微秒", plural: "微秒", short: "微秒", fuzzy_prefix: "" },
        (Language::Japanese, TimeUnit::Day) => UnitLocale { singular: "日", plural: "日", short: "日", fuzzy_prefix: "約" },
        (Language::Japanese, TimeUnit::Hour) => UnitLocale { singular: "時間", plural: "時間", short: "時", fuzzy_prefix: "約" },
        (Language::Japanese, TimeUnit::Minute) => UnitLocale { singular: "分", plural: "分", short: "分", fuzzy_prefix: "約" },
        (Language::Japanese, TimeUnit::Second) => UnitLocale { singular: "秒", plural: "秒", short: "秒", fuzzy_prefix: "約" },
        (Language::Japanese, TimeUnit::Millisecond) => UnitLocale { singular: "ミリ秒", plural: "ミリ秒", short: "ミリ秒", fuzzy_prefix: "" },
        (Language::Japanese, TimeUnit::Microsecond) => UnitLocale { singular: "マイクロ秒", plural: "マイクロ秒", short: "μ秒", fuzzy_prefix: "" },
        (Language::Spanish, TimeUnit::Day) => UnitLocale { singular: "día", plural: "días", short: "d", fuzzy_prefix: "alrededor de " },
        (Language::Spanish, TimeUnit::Hour) => UnitLocale { singular: "hora", plural: "horas", short: "h", fuzzy_prefix: "alrededor de " },
        (Language::Spanish, TimeUnit::Minute) => UnitLocale { singular: "minuto", plural: "minutos", short: "m", fuzzy_prefix: "alrededor de " },
        (Language::Spanish, TimeUnit::Second) => UnitLocale { singular: "segundo", plural: "segundos", short: "s", fuzzy_prefix: "alrededor de " },
        (Language::Spanish, TimeUnit::Millisecond) => UnitLocale { singular: "milisegundo", plural: "milisegundos", short: "ms", fuzzy_prefix: "" },
        (Language::Spanish, TimeUnit::Microsecond) => UnitLocale { singular: "microsegundo", plural: "microsegundos", short: "μs", fuzzy_prefix: "" },
        (Language::German, TimeUnit::Day) => UnitLocale { singular: "Tag", plural: "Tage", short: "T", fuzzy_prefix: "etwa " },
        (Language::German, TimeUnit::Hour) => UnitLocale { singular: "Stunde", plural: "Stunden", short: "Std", fuzzy_prefix: "etwa " },
        (Language::German, TimeUnit::Minute) => UnitLocale { singular: "Minute", plural: "Minuten", short: "Min", fuzzy_prefix: "etwa " },
        (Language::German, TimeUnit::Second) => UnitLocale { singular: "Sekunde", plural: "Sekunden", short: "s", fuzzy_prefix: "etwa " },
        (Language::German, TimeUnit::Millisecond) => UnitLocale { singular: "Millisekunde", plural: "Millisekunden", short: "ms", fuzzy_prefix: "" },
        (Language::German, TimeUnit::Microsecond) => UnitLocale { singular: "Mikrosekunde", plural: "Mikrosekunden", short: "μs", fuzzy_prefix: "" },
        (_, TimeUnit::Day) => UnitLocale { singular: "day", plural: "days", short: "d", fuzzy_prefix: "about " },
        (_, TimeUnit::Hour) => UnitLocale { singular: "hour", plural: "hours", short: "h", fuzzy_prefix: "about " },
        (_, TimeUnit::Minute) => UnitLocale { singular: "minute", plural: "minutes", short: "m", fuzzy_prefix: "about " },
        (_, TimeUnit::Second) => UnitLocale { singular: "second", plural: "seconds", short: "s", fuzzy_prefix: "about " },
        (_, TimeUnit::Millisecond) => UnitLocale { singular: "millisecond", plural: "milliseconds", short: "ms", fuzzy_prefix: "" },
        (_, TimeUnit::Microsecond) => UnitLocale { singular: "microsecond", plural: "microseconds", short: "μs", fuzzy_prefix: "" },
    }
}

/// The unit name used for `count` units: the short form, or else the plural
/// form when `count > 1`, or else the singular form.
pub open spec fn spec_unit_str(language: Language, unit: TimeUnit, count: nat, short: bool) -> Seq<char> {
    let l = spec_unit_locale(language, unit);
    if short {
        l.short@
    } else if count > 1 {
        l.plural@
    } else {
        l.singular@
    }
}

/// The components of a duration.
#[derive(Clone, Copy)]
pub struct TimeParts {
    pub days: u64,
    pub hours: u64,
    pub minutes: u64,
    pub seconds: u64,
    pub millis: u32,
    pub micros: u32,
    pub nanos: u32,
}

/// The components of `secs` whole seconds and `nanos` nanoseconds.
pub open spec fn spec_parts(secs: u64, nanos: u32) -> TimeParts {
    TimeParts {
        days: secs / 86400,
        hours: (secs % 86400) / 3600,
        minutes: (secs % 3600) / 60,
        seconds: secs % 60,
        millis: nanos / 1_000_000,
        micros: (nanos % 1_000_000) / 1000,
        nanos: nanos,
    }
}

/// `n` followed by the unit name, with `mid` between them.
pub open spec fn component(n: nat, mid: Seq<char>, language: Language, unit: TimeUnit, short: bool) -> Seq<char> {
    dec(n) + mid + spec_unit_str(language, unit, n, short)
}

/// Compact style: `1d2h3m4s`; zero components are left out, and the seconds
/// are shown when nothing else is.
pub open spec fn spec_compact(p: TimeParts, l: Language) -> Seq<char> {
    let e = Seq::<char>::empty();
    join(
        piece_if(p.days > 0, component(p.days as nat, e, l, TimeUnit::Day, true))
            + piece_if(p.hours > 0, component(p.hours as nat, e, l, TimeUnit::Hour, true))
            + piece_if(p.minutes > 0, component(p.minutes as nat, e, l, TimeUnit::Minute, true))
            + piece_if(p.seconds > 0 || (p.days == 0 && p.hours == 0 && p.minutes == 0),
                component(p.seconds as nat, e, l, TimeUnit::Second, true)),
        e,
    )
}

/// Standard style: `1 hour 2 minutes 3 seconds`.
pub open spec fn spec_standard(p: TimeParts, l: Language) -> Seq<char> {
    join(
        piece_if(p.days > 0, component(p.days as nat, " "@, l, TimeUnit::Day, false))
            + piece_if(p.hours > 0, component(p.hours as nat, " "@, l, TimeUnit::Hour, false))
            + piece_if(p.minutes > 0, component(p.minutes as nat, " "@, l, TimeUnit::Minute, false))
            + piece_if(p.seconds > 0 || (p.days == 0 && p.hours == 0 && p.minutes == 0),
                component(p.seconds as nat, " "@, l, TimeUnit::Second, false)),
        " "@,
    )
}

/// Separator of the detailed style.
pub open spec fn spec_detailed_separator(l: Language) -> Seq<char> {
    if l == Language::Chinese || l == Language::Japanese {
        "、"@
    } else {
        ", "@
    }
}

/// Detailed style: `1 hour, 2 minutes, 3.000 seconds`; the seconds, with
/// three digits of milliseconds, are always shown.
pub open spec fn spec_detailed(p: TimeParts, l: Language) -> Seq<char> {
    join(
        piece_if(p.days > 0, component(p.days as nat, " "@, l, TimeUnit::Day, false))
            + piece_if(p.hours > 0, component(p.hours as nat, " "@, l, TimeUnit::Hour, false))
            + piece_if(p.minutes > 0, component(p.minutes as nat, " "@, l, TimeUnit::Minute, false))
            + seq![dec(p.seconds as nat) + "."@ + dec_padded(p.millis as nat, 3) + " "@
                + spec_unit_str(l, TimeUnit::Second, p.seconds as nat, false)],
        spec_detailed_separator(l),
    )
}

/// `n` followed by `letter`, or nothing when `n` is zero.
pub open spec fn iso_field(n: nat, letter: Seq<char>) -> Seq<char> {
    if n > 0 {
        dec(n) + letter
    } else {
        Seq::empty()
    }
}

/// ISO 8601 style: `P1DT2H3M4S`, zero components left out; a duration of
/// no whole second is `PT0S`, as the standard writes a zero duration.
pub open spec fn spec_iso8601(p: TimeParts) -> Seq<char> {
    let time = if p.hours > 0 || p.minutes > 0 || p.seconds > 0 {
        "T"@ + iso_field(p.hours as nat, "H"@) + iso_field(p.minutes as nat, "M"@) + iso_field(
            p.seconds as nat,
            "S"@,
        )
    } else {
        Seq::empty()
    };
    if p.days == 0 && time.len() == 0 {
        "PT0S"@
    } else {
        "P"@ + iso_field(p.days as nat, "D"@) + time
    }
}

/// Fuzzy style: the prefix `about ` (localized), then the duration rounded to
/// its most significant unit.
pub open spec fn spec_fuzzy(total_secs: nat, l: Language) -> Seq<char> {
    let prefix = spec_unit_locale(l, TimeUnit::Second).fuzzy_prefix@;
    if total_secs < 2 {
        prefix + "1 "@ + spec_unit_str(l, TimeUnit::Second, 1, false)
    } else if total_secs < 60 {
        prefix + component(total_secs, " "@, l, TimeUnit::Second, false)
    } else if total_secs < 120 {
        prefix + "1 "@ + spec_unit_str(l, TimeUnit::Minute, 1, false)
    } else if total_secs < 3600 {
        prefix + component((total_secs + 30) / 60, " "@, l, TimeUnit::Minute, false)
    } else if total_secs < 7200 {
        prefix + "1 "@ + spec_unit_str(l, TimeUnit::Hour, 1, false)
    } else if total_secs < 86400 {
        prefix + component((total_secs + 1800) / 3600, " "@, l, TimeUnit::Hour, false)
    } else {
        prefix + component((total_secs + 43200) / 86400, " "@, l, TimeUnit::Day, false)
    }
}

/// Numeric style: `[d:]hh:mm:ss.mmm`.
pub open spec fn spec_numeric(p: TimeParts) -> Seq<char> {
    let clock = dec_padded(p.hours as nat, 2) + ":"@ + dec_padded(p.minutes as nat, 2) + ":"@
        + dec_padded(p.seconds as nat, 2) + "."@ + dec_padded(p.millis as nat, 3);
    if p.days > 0 {
        dec(p.days as nat) + ":"@ + clock
    } else {
        clock
    }
}

/// Verbose style, `D:1 H:2 M:3 S:4 MS:567`: every non-zero component with
/// its label (days `D:`, hours `H:`, minutes `M:`, seconds `S:`,
/// milliseconds `MS:`, microseconds `μs:`, and the nanoseconds below a
/// microsecond `ns:`); `0s` when all are zero.
pub open spec fn spec_verbose(p: TimeParts) -> Seq<char> {
    let pieces = piece_if(p.days > 0, "D:"@ + dec(p.days as nat))
        + piece_if(p.hours > 0, "H:"@ + dec(p.hours as nat))
        + piece_if(p.minutes > 0, "M:"@ + dec(p.minutes as nat))
        + piece_if(p.seconds > 0, "S:"@ + dec(p.seconds as nat))
        + piece_if(p.millis > 0, "MS:"@ + dec(p.millis as nat))
        + piece_if(p.micros > 0, "μs:"@ + dec(p.micros as nat))
        + piece_if(p.nanos % 1000 > 0, "ns:"@ + dec((p.nanos % 1000) as nat));
    if pieces.len() == 0 {
        "0s"@
    } else {
        join(pieces, " "@)
    }
}

/// Automatic style: detailed with days, compact with hours or minutes,
/// otherwise the largest non-zero small unit.
pub open spec fn spec_auto(p: TimeParts, l: Language) -> Seq<char> {
    if p.days > 0 {
        spec_detailed(p, l)
    } else if p.hours > 0 || p.minutes > 0 {
        spec_compact(p, l)
    } else if p.seconds > 0 {
        dec(p.seconds as nat) + "."@ + dec_padded(p.millis as nat, 3)
            + spec_unit_str(l, TimeUnit::Second, p.seconds as nat, false)
    } else if p.millis > 0 {
        dec(p.millis as nat) + spec_unit_str(l, TimeUnit::Millisecond, p.millis as nat, false)
    } else if p.micros > 0 {
        dec(p.micros as nat) + spec_unit_str(l, TimeUnit::Microsecond, p.micros as nat, false)
    } else {
        "0"@ + spec_unit_str(l, TimeUnit::Second, 0, false)
    }
}

/// The rendering of `secs` seconds and `nanos` nanoseconds in a (non-random)
/// style and language.
pub open spec fn spec_render(secs: u64, nanos: u32, f: DurationFormat, l: Language) -> Seq<char> {
    let p = spec_parts(secs, nanos);
    match f {
        DurationFormat::Compact => spec_compact(p, l),
        DurationFormat::Standard => spec_standard(p, l),
        DurationFormat::Detailed => spec_detailed(p, l),
        DurationFormat::ISO8601 => spec_iso8601(p),
        DurationFormat::Fuzzy => spec_fuzzy(secs as nat, l),
        DurationFormat::Numeric => spec_numeric(p),
        DurationFormat::Verbose => spec_verbose(p),
        _ => spec_auto(p, l),
    }
}

/// The automatic style never drops a whole component: a duration of at
/// least a minute and under a day is written as in the compact style, which
/// names each non-zero hour, minute and second (65 seconds is `1m5s`), and
/// a duration of a day or more as in the detailed style.
pub proof fn lemma_auto_keeps_components(secs: u64, nanos: u32, l: Language)
    ensures
        60 <= secs < 86400 ==> spec_render(secs, nanos, DurationFormat::Auto, l) == spec_render(
            secs,
            nanos,
            DurationFormat::Compact,
            l,
        ),
        secs >= 86400 ==> spec_render(secs, nanos, DurationFormat::Auto, l) == spec_render(
            secs,
            nanos,
            DurationFormat::Detailed,
            l,
        ),
{
    let p = spec_parts(secs, nanos);
    if 60 <= secs < 86400 {
        assert(p.days == 0) by (nonlinear_arith)
            requires
                p.days == secs / 86400,
                secs < 86400,
        ;
        assert(p.hours > 0 || p.minutes > 0) by (nonlinear_arith)
            requires
                p.hours == (secs % 86400) / 3600,
                p.minutes == (secs % 3600) / 60,
                60 <= secs < 86400,
        ;
    }
    if secs >= 86400 {
        assert(p.days > 0) by (nonlinear_arith)
            requires
                p.days == secs / 86400,
                secs >= 86400,
        ;
    }
}

/// The whole seconds of a duration, as `Duration::as_secs` gives them.
pub uninterp spec fn whole_secs_of(d: Duration) -> u64;

/// The sub-second part of a duration in nanoseconds, as
/// `Duration::subsec_nanos` gives it.
pub uninterp spec fn subsec_nanos_of(d: Duration) -> u32;

/// Whole seconds of a duration.
///
/// Trusted: calls `Duration::as_secs`, a function of the duration alone; its
/// value is named `whole_secs_of`.
#[verifier::external_body]
fn duration_secs(d: &Duration) -> (r: u64)
    ensures
        r == whole_secs_of(*d),
{
    d.as_secs()
}

/// Sub-second part of a duration in nanoseconds.
///
/// Trusted: calls `Duration::subsec_nanos`, a function of the duration alone
/// (named `subsec_nanos_of`), which std documents as always less than one
/// billion.
#[verifier::external_body]
fn duration_subsec_nanos(d: &Duration) -> (r: u32)
    ensures
        r == subsec_nanos_of(*d),
        r < 1_000_000_000,
{
    d.subsec_nanos()
}

/// A random index below `n`.
///
/// Trusted: calls `rand::rng().random_range(0..n)`, which rand documents as
/// sampling from the half-open range; nothing else is stated of the value.
#[verifier::external_body]
fn random_index(n: usize) -> (r: usize)
    requires
        n > 0,
    ensures
        r < n,
{
    rand::rng().random_range(0..n)
}

/// A duration together with the style and language it is rendered in.
pub struct HumanDuration {
    secs: u64,
    nanos: u32,
    format: DurationFormat,
    language: Language,
}

impl HumanDuration {
    /// Whole seconds of the duration.
    pub closed spec fn spec_secs(&self) -> u64 {
        self.secs
    }

    /// Sub-second nanoseconds of the duration.
    pub closed spec fn spec_nanos(&self) -> u32 {
        self.nanos
    }

    /// The selected style.
    pub closed spec fn spec_format(&self) -> DurationFormat {
        self.format
    }

    /// The selected language.
    pub closed spec fn spec_language(&self) -> Language {
        self.language
    }

    /// Well-formedness: the sub-second part is below one second.
    pub closed spec fn wf(&self) -> bool {
        self.nanos < 1_000_000_000
    }

    /// Wraps `duration` with the automatic style and the Chinese language.
    pub fn new(duration: Duration) -> (r: Self)
        ensures
            r.wf(),
            r.spec_secs() == whole_secs_of(duration),
            r.spec_nanos() == subsec_nanos_of(duration),
            r.spec_format() == DurationFormat::Auto,
            r.spec_language() == Language::Chinese,
    {
        HumanDuration {
            secs: duration_secs(&duration),
            nanos: duration_subsec_nanos(&duration),
            format: DurationFormat::Auto,
            language: Language::Chinese,
        }
    }

    /// Wraps `secs` seconds and `nanos` nanoseconds with the automatic style
    /// and the Chinese language.
    pub fn from_secs_nanos(secs: u64, nanos: u32) -> (r: Self)
        requires
            nanos < 1_000_000_000,
        ensures
            r.wf(),
            r.spec_secs() == secs,
            r.spec_nanos() == nanos,
            r.spec_format() == DurationFormat::Auto,
            r.spec_language() == Language::Chinese,
    {
        HumanDuration { secs, nanos, format: DurationFormat::Auto, language: Language::Chinese }
    }

    /// Sets the style.
    pub fn format(self, format: DurationFormat) -> (r: Self)
        ensures
            r.spec_secs() == self.spec_secs(),
            r.spec_nanos() == self.spec_nanos(),
            r.spec_format() == format,
            r.spec_language() == self.spec_language(),
            self.wf() ==> r.wf(),
    {
        HumanDuration { format, ..self }
    }

    /// Sets the language.
    pub fn language(self, language: Language) -> (r: Self)
        ensures
            r.spec_secs() == self.spec_secs(),
            r.spec_nanos() == self.spec_nanos(),
            r.spec_format() == self.spec_format(),
            r.spec_language() == language,
            self.wf() ==> r.wf(),
    {
        HumanDuration { language, ..self }
    }

    /// The components of the duration.
    pub fn get_parts(&self) -> (p: TimeParts)
        requires
            self.wf(),
        ensures
            p == spec_parts(self.spec_secs(), self.spec_nanos()),
    {
        let total_secs = self.secs;
        TimeParts {
            days: total_secs / 86400,
            hours: (total_secs % 86400) / 3600,
            minutes: (total_secs % 3600) / 60,
            seconds: total_secs % 60,
            millis: self.nanos / 1_000_000,
            micros: (self.nanos % 1_000_000) / 1000,
            nanos: self.nanos,
        }
    }

    /// One of the five languages, drawn at random.
    fn random_language() -> (l: Language)
        ensures
            l != Language::Random,
    {
        match random_index(5) {
            0 => Language::English,
            1 => Language::Chinese,
            2 => Language::Japanese,
            3 => Language::Spanish,
            _ => Language::German,
        }
    }

    /// One of the seven fixed styles other than `Auto`, drawn at random.
    fn random_format() -> (f: DurationFormat)
        ensures
            f != DurationFormat::Random,
            f != DurationFormat::Auto,
    {
        match random_index(7) {
            0 => DurationFormat::Compact,
            1 => DurationFormat::Standard,
            2 => DurationFormat::Detailed,
            3 => DurationFormat::ISO8601,
            4 => DurationFormat::Fuzzy,
            5 => DurationFormat::Numeric,
            _ => DurationFormat::Verbose,
        }
    }

    /// The language in use: the selected one, or a random one for `Random`.
    pub fn get_actual_language(&self) -> (l: Language)
        ensures
            l != Language::Random,
            self.spec_language() != Language::Random ==> l == self.spec_language(),
    {
        match self.language {
            Language::Random => Self::random_language(),
            other => other,
        }
    }

    /// The unit names for `unit` in the language in use.
    pub fn get_unit_locale(&self, unit: TimeUnit) -> (r: UnitLocale)
        requires
            self.spec_language() != Language::Random,
        ensures
            r == spec_unit_locale(self.spec_language(), unit),
    {
        let language = self.get_actual_language();
        match (language, unit) {
            (Language::Chinese, TimeUnit::Day) => UnitLocale::same("天", "天", "大约"),
            (Language::Chinese, TimeUnit::Hour) => UnitLocale::same("小时", "时", "大约"),
            (Language::Chinese, TimeUnit::Minute) => UnitLocale::same("分钟", "分", "大约"),
            (Language::Chinese, TimeUnit::Second) => UnitLocale::same("秒", "秒", "大约"),
            (Language::Chinese, TimeUnit::Millisecond) => UnitLocale::same("毫秒", "毫秒", ""),
            (Language::Chinese, TimeUnit::Microsecond) => UnitLocale::same("微秒", "微秒", ""),
            (Language::Japanese, TimeUnit::Day) => UnitLocale::same("日", "日", "約"),
            (Language::Japanese, TimeUnit::Hour) => UnitLocale::same("時間", "時", "約"),
            (Language::Japanese, TimeUnit::Minute) => UnitLocale::same("分", "分", "約"),
            (Language::Japanese, TimeUnit::Second) => UnitLocale::same("秒", "秒", "約"),
            (Language::Japanese, TimeUnit::Millisecond) => UnitLocale::same("ミリ秒", "ミリ秒", ""),
            (Language::Japanese, TimeUnit::Microsecond) => UnitLocale::same("マイクロ秒", "μ秒", ""),
            (Language::Spanish, TimeUnit::Day) => UnitLocale::new("día", "días", "d", "alrededor de "),
            (Language::Spanish, TimeUnit::Hour) => UnitLocale::new("hora", "horas", "h", "alrededor de "),
            (Language::Spanish, TimeUnit::Minute) => UnitLocale::new("minuto", "minutos", "m", "alrededor de "),
            (Language::Spanish, TimeUnit::Second) => UnitLocale::new("segundo", "segundos", "s", "alrededor de "),
            (Language::Spanish, TimeUnit::Millisecond) => UnitLocale::new("milisegundo", "milisegundos", "ms", ""),
            (Language::Spanish, TimeUnit::Microsecond) => UnitLocale::new("microsegundo", "microsegundos", "μs", ""),
            (Language::German, TimeUnit::Day) => UnitLocale::new("Tag", "Tage", "T", "etwa "),
            (Language::German, TimeUnit::Hour) => UnitLocale::new("Stunde", "Stunden", "Std", "etwa "),
            (Language::German, TimeUnit::Minute) => UnitLocale::new("Minute", "Minuten", "Min", "etwa "),
            (Language::German, TimeUnit::Second) => UnitLocale::new("Sekunde", "Sekunden", "s", "etwa "),
            (Language::German, TimeUnit::Millisecond) => UnitLocale::new("Millisekunde", "Millisekunden", "ms", ""),
            (Language::German, TimeUnit::Microsecond) => UnitLocale::new("Mikrosekunde", "Mikrosekunden", "μs", ""),
            (_, TimeUnit::Day) => UnitLocale::new("day", "days", "d", "about "),
            (_, TimeUnit::Hour) => UnitLocale::new("hour", "hours", "h", "about "),
            (_, TimeUnit::Minute) => UnitLocale::new("minute", "minutes", "m", "about "),
            (_, TimeUnit::Second) => UnitLocale::new("second", "seconds", "s", "about "),
            (_, TimeUnit::Millisecond) => UnitLocale::new("millisecond", "milliseconds", "ms", ""),
            (_, TimeUnit::Microsecond) => UnitLocale::new("microsecond", "microseconds", "μs", ""),
        }
    }

    /// The unit name for `count` units: short, plural or singular.
    pub fn get_unit_str(&self, unit: TimeUnit, count: u64, short: bool) -> (r: &'static str)
        requires
            self.spec_language() != Language::Random,
        ensures
            r@ == spec_unit_str(self.spec_language(), unit, count as nat, short),
    {
        let locale = self.get_unit_locale(unit);
        if short {
            locale.short
        } else if count > 1 {
            locale.plural
        } else {
            locale.singular
        }
    }
}


/// Appends `piece` to a string that holds `pieces` joined with `sep`.
fn push_piece(s: &mut String, sep: &str, piece: &str, Ghost(pieces): Ghost<Seq<Seq<char>>>)
    requires
        old(s)@ == join(pieces, sep@),
        piece@.len() > 0,
        forall|i: int| 0 <= i < pieces.len() ==> #[trigger] pieces[i].len() > 0,
    ensures
        final(s)@ == join(pieces.push(piece@), sep@),
        forall|i: int|
            0 <= i < pieces.push(piece@).len() ==> #[trigger] pieces.push(piece@)[i].len() > 0,
{
    proof {
        lemma_join_empty(pieces, sep@);
        lemma_join_push(pieces, sep@, piece@);
    }
    if !s.as_str().is_empty() {
        s.append(sep);
    }
    s.append(piece);
    proof {
        assert forall|i: int| 0 <= i < pieces.push(piece@).len() implies #[trigger] pieces.push(
            piece@,
        )[i].len() > 0 by {
            if i < pieces.len() {
                assert(pieces.push(piece@)[i] == pieces[i]);
            }
        }
    }
}

/// `n` followed by `letter`, or the empty string when `n` is zero.
fn iso_field_string(n: u64, letter: &str) -> (r: String)
    ensures
        r@ == iso_field(n as nat, letter@),
{
    if n > 0 {
        let mut s = u64_to_string(n);
        s.append(letter);
        s
    } else {
        String::new()
    }
}

/// Appends `piece` when `cond` holds to a string that holds `pieces` joined with `sep`.
fn push_piece_if(
    s: &mut String,
    sep: &str,
    cond: bool,
    piece: &str,
    Ghost(pieces): Ghost<Seq<Seq<char>>>,
)
    requires
        old(s)@ == join(pieces, sep@),
        piece@.len() > 0,
        forall|i: int| 0 <= i < pieces.len() ==> #[trigger] pieces[i].len() > 0,
    ensures
        final(s)@ == join(pieces + piece_if(cond, piece@), sep@),
        forall|i: int|
            0 <= i < (pieces + piece_if(cond, piece@)).len() ==> #[trigger] (pieces + piece_if(
                cond,
                piece@,
            ))[i].len() > 0,
{
    if cond {
        push_piece(s, sep, piece, Ghost(pieces));
        assert(pieces + piece_if(cond, piece@) =~= pieces.push(piece@));
    } else {
        assert(pieces + piece_if(cond, piece@) =~= pieces);
    }
}

/// `label` followed by `n`.
fn labeled(label: &str, n: u64) -> (r: String)
    requires
        label@.len() > 0,
    ensures
        r@ == label@ + dec(n as nat),
        r@.len() > 0,
{
    let mut c = String::from_str(label);
    append_string(&mut c, u64_to_string(n));
    c
}

impl HumanDuration {
    /// `n`, then `mid`, then the unit name for `n` units.
    fn component_string(&self, n: u64, mid: &str, unit: TimeUnit, short: bool) -> (r: String)
        requires
            self.spec_language() != Language::Random,
        ensures
            r@ == component(n as nat, mid@, self.spec_language(), unit, short),
            r@.len() > 0,
    {
        let mut s = u64_to_string(n);
        proof {
            lemma_dec_nonempty(n as nat);
        }
        s.append(mid);
        s.append(self.get_unit_str(unit, n, short));
        s
    }

    /// Compact style.
    pub fn fmt_compact(&self) -> (r: String)
        requires
            self.wf(),
            self.spec_language() != Language::Random,
        ensures
            r@ == spec_compact(spec_parts(self.spec_secs(), self.spec_nanos()), self.spec_language()),
    {
        let p = self.get_parts();
        let l = self.language;
        let mut s = String::new();
        proof {
            reveal_strlit("");
        }
        let ghost e = Seq::<char>::empty();
        assert(""@ =~= e);
        let ghost mut pieces: Seq<Seq<char>> = Seq::empty();
        if p.days > 0 {
            let c = self.component_string(p.days, "", TimeUnit::Day, true);
            push_piece(&mut s, "", c.as_str(), Ghost(pieces));
            proof {
                pieces = pieces.push(c@);
            }
        }
        if p.hours > 0 {
            let c = self.component_string(p.hours, "", TimeUnit::Hour, true);
            push_piece(&mut s, "", c.as_str(), Ghost(pieces));
            proof {
                pieces = pieces.push(c@);
            }
        }
        if p.minutes > 0 {
            let c = self.component_string(p.minutes, "", TimeUnit::Minute, true);
            push_piece(&mut s, "", c.as_str(), Ghost(pieces));
            proof {
                pieces = pieces.push(c@);
            }
        }
        proof {
            lemma_join_empty(pieces, e);
        }
        if p.seconds > 0 || s.as_str().is_empty() {
            let c = self.component_string(p.seconds, "", TimeUnit::Second, true);
            push_piece(&mut s, "", c.as_str(), Ghost(pieces));
            proof {
                pieces = pieces.push(c@);
            }
        }
        proof {
            let sp = spec_parts(self.secs, self.nanos);
            assert(pieces =~= piece_if(sp.days > 0, component(sp.days as nat, e, l, TimeUnit::Day, true))
                + piece_if(sp.hours > 0, component(sp.hours as nat, e, l, TimeUnit::Hour, true))
                + piece_if(sp.minutes > 0, component(sp.minutes as nat, e, l, TimeUnit::Minute, true))
                + piece_if(sp.seconds > 0 || (sp.days == 0 && sp.hours == 0 && sp.minutes == 0),
                    component(sp.seconds as nat, e, l, TimeUnit::Second, true)));
        }
        s
    }
}


impl HumanDuration {
    /// Standard style.
    pub fn fmt_standard(&self) -> (r: String)
        requires
            self.wf(),
            self.spec_language() != Language::Random,
        ensures
            r@ == spec_standard(spec_parts(self.spec_secs(), self.spec_nanos()), self.spec_language()),
    {
        let p = self.get_parts();
        let l = self.language;
        let mut s = String::new();
        let ghost mut pieces: Seq<Seq<char>> = Seq::empty();
        if p.days > 0 {
            let c = self.component_string(p.days, " ", TimeUnit::Day, false);
            push_piece(&mut s, " ", c.as_str(), Ghost(pieces));
            proof {
                pieces = pieces.push(c@);
            }
        }
        if p.hours > 0 {
            let c = self.component_string(p.hours, " ", TimeUnit::Hour, false);
            push_piece(&mut s, " ", c.as_str(), Ghost(pieces));
            proof {
                pieces = pieces.push(c@);
            }
        }
        if p.minutes > 0 {
            let c = self.component_string(p.minutes, " ", TimeUnit::Minute, false);
            push_piece(&mut s, " ", c.as_str(), Ghost(pieces));
            proof {
                pieces = pieces.push(c@);
            }
        }
        proof {
            lemma_join_empty(pieces, " "@);
        }
        if p.seconds > 0 || s.as_str().is_empty() {
            let c = self.component_string(p.seconds, " ", TimeUnit::Second, false);
            push_piece(&mut s, " ", c.as_str(), Ghost(pieces));
            proof {
                pieces = pieces.push(c@);
            }
        }
        proof {
            let sp = spec_parts(self.secs, self.nanos);
            assert(pieces =~= piece_if(sp.days > 0, component(sp.days as nat, " "@, l, TimeUnit::Day, false))
                + piece_if(sp.hours > 0, component(sp.hours as nat, " "@, l, TimeUnit::Hour, false))
                + piece_if(sp.minutes > 0, component(sp.minutes as nat, " "@, l, TimeUnit::Minute, false))
                + piece_if(sp.seconds > 0 || (sp.days == 0 && sp.hours == 0 && sp.minutes == 0),
                    component(sp.seconds as nat, " "@, l, TimeUnit::Second, false)));
        }
        s
    }

    /// Detailed style.
    pub fn fmt_detailed(&self) -> (r: String)
        requires
            self.wf(),
            self.spec_language() != Language::Random,
        ensures
            r@ == spec_detailed(spec_parts(self.spec_secs(), self.spec_nanos()), self.spec_language()),
    {
        let separator = match self.get_actual_language() {
            Language::Chinese | Language::Japanese => "、",
            _ => ", ",
        };
        let p = self.get_parts();
        let l = self.language;
        let mut s = String::new();
        let ghost mut pieces: Seq<Seq<char>> = Seq::empty();
        if p.days > 0 {
            let c = self.component_string(p.days, " ", TimeUnit::Day, false);
            push_piece(&mut s, separator, c.as_str(), Ghost(pieces));
            proof {
                pieces = pieces.push(c@);
            }
        }
        if p.hours > 0 {
            let c = self.component_string(p.hours, " ", TimeUnit::Hour, false);
            push_piece(&mut s, separator, c.as_str(), Ghost(pieces));
            proof {
                pieces = pieces.push(c@);
            }
        }
        if p.minutes > 0 {
            let c = self.component_string(p.minutes, " ", TimeUnit::Minute, false);
            push_piece(&mut s, separator, c.as_str(), Ghost(pieces));
            proof {
                pieces = pieces.push(c@);
            }
        }
        let mut c = u64_to_string(p.seconds);
        proof {
            lemma_dec_nonempty(p.seconds as nat);
        }
        c.append(".");
        append_string(&mut c, u64_to_padded_string(p.millis as u64, 3));
        c.append(" ");
        c.append(self.get_unit_str(TimeUnit::Second, p.seconds, false));
        push_piece(&mut s, separator, c.as_str(), Ghost(pieces));
        proof {
            pieces = pieces.push(c@);
            let sp = spec_parts(self.secs, self.nanos);
            assert(pieces =~= piece_if(sp.days > 0, component(sp.days as nat, " "@, l, TimeUnit::Day, false))
                + piece_if(sp.hours > 0, component(sp.hours as nat, " "@, l, TimeUnit::Hour, false))
                + piece_if(sp.minutes > 0, component(sp.minutes as nat, " "@, l, TimeUnit::Minute, false))
                + seq![dec(sp.seconds as nat) + "."@ + dec_padded(sp.millis as nat, 3) + " "@
                    + spec_unit_str(l, TimeUnit::Second, sp.seconds as nat, false)]);
        }
        s
    }

    /// ISO 8601 style.
    pub fn fmt_iso8601(&self) -> (r: String)
        requires
            self.wf(),
        ensures
            r@ == spec_iso8601(spec_parts(self.spec_secs(), self.spec_nanos())),
    {
        let p = self.get_parts();
        let mut s = String::new();
        s.append("P");
        append_string(&mut s, iso_field_string(p.days, "D"));
        if p.hours > 0 || p.minutes > 0 || p.seconds > 0 {
            let mut t = String::new();
            t.append("T");
            append_string(&mut t, iso_field_string(p.hours, "H"));
            append_string(&mut t, iso_field_string(p.minutes, "M"));
            append_string(&mut t, iso_field_string(p.seconds, "S"));
            append_string(&mut s, t);
        } else {
            proof {
                assert(s@ =~= s@ + Seq::<char>::empty());
            }
            if p.days == 0 {
                return String::from_str("PT0S");
            }
        }
        s
    }

    /// Fuzzy style.
    pub fn fmt_fuzzy(&self) -> (r: String)
        requires
            self.spec_language() != Language::Random,
        ensures
            r@ == spec_fuzzy(self.spec_secs() as nat, self.spec_language()),
    {
        let total_secs = self.secs;
        let locale_prefix = self.get_unit_locale(TimeUnit::Second).fuzzy_prefix;
        let mut s = String::new();
        s.append(locale_prefix);
        if total_secs < 2 {
            s.append("1 ");
            s.append(self.get_unit_str(TimeUnit::Second, 1, false));
        } else if total_secs < 60 {
            append_string(&mut s, self.component_string(total_secs, " ", TimeUnit::Second, false));
        } else if total_secs < 120 {
            s.append("1 ");
            s.append(self.get_unit_str(TimeUnit::Minute, 1, false));
        } else if total_secs < 3600 {
            let minutes = (total_secs + 30) / 60;
            append_string(&mut s, self.component_string(minutes, " ", TimeUnit::Minute, false));
        } else if total_secs < 7200 {
            s.append("1 ");
            s.append(self.get_unit_str(TimeUnit::Hour, 1, false));
        } else if total_secs < 86400 {
            let hours = (total_secs + 1800) / 3600;
            append_string(&mut s, self.component_string(hours, " ", TimeUnit::Hour, false));
        } else {
            let days = total_secs / 86400 + (if total_secs % 86400 >= 43200 { 1u64 } else { 0u64 });
            assert(days == (total_secs + 43200) / 86400);
            append_string(&mut s, self.component_string(days, " ", TimeUnit::Day, false));
        }
        s
    }

    /// Numeric style.
    pub fn fmt_numeric(&self) -> (r: String)
        requires
            self.wf(),
        ensures
            r@ == spec_numeric(spec_parts(self.spec_secs(), self.spec_nanos())),
    {
        let p = self.get_parts();
        let mut s = String::new();
        if p.days > 0 {
            append_string(&mut s, u64_to_string(p.days));
            s.append(":");
        }
        let ghost s0 = s@;
        append_string(&mut s, u64_to_padded_string(p.hours, 2));
        s.append(":");
        append_string(&mut s, u64_to_padded_string(p.minutes, 2));
        s.append(":");
        append_string(&mut s, u64_to_padded_string(p.seconds, 2));
        s.append(".");
        append_string(&mut s, u64_to_padded_string(p.millis as u64, 3));
        proof {
            let sp = spec_parts(self.secs, self.nanos);
            let clock = dec_padded(sp.hours as nat, 2) + ":"@ + dec_padded(sp.minutes as nat, 2) + ":"@
                + dec_padded(sp.seconds as nat, 2) + "."@ + dec_padded(sp.millis as nat, 3);
            assert(s@ =~= s0 + clock);
            if sp.days > 0 {
                assert(s0 =~= dec(sp.days as nat) + ":"@);
            } else {
                assert(s0 =~= Seq::<char>::empty());
            }
        }
        s
    }

    /// Verbose style.
    #[verifier::rlimit(40)]
    pub fn fmt_verbose(&self) -> (r: String)
        requires
            self.wf(),
        ensures
            r@ == spec_verbose(spec_parts(self.spec_secs(), self.spec_nanos())),
    {
        let p = self.get_parts();
        let mut s = String::new();
        proof {
            reveal_strlit("D:");
            reveal_strlit("H:");
            reveal_strlit("M:");
            reveal_strlit("S:");
            reveal_strlit("MS:");
            reveal_strlit("μs:");
            reveal_strlit("ns:");
        }
        let ghost mut pieces: Seq<Seq<char>> = Seq::empty();
        let c = labeled("D:", p.days);
        push_piece_if(&mut s, " ", p.days > 0, c.as_str(), Ghost(pieces));
        proof { pieces = pieces + piece_if(p.days > 0, c@); }
        let c = labeled("H:", p.hours);
        push_piece_if(&mut s, " ", p.hours > 0, c.as_str(), Ghost(pieces));
        proof { pieces = pieces + piece_if(p.hours > 0, c@); }
        let c = labeled("M:", p.minutes);
        push_piece_if(&mut s, " ", p.minutes > 0, c.as_str(), Ghost(pieces));
        proof { pieces = pieces + piece_if(p.minutes > 0, c@); }
        let c = labeled("S:", p.seconds);
        push_piece_if(&mut s, " ", p.seconds > 0, c.as_str(), Ghost(pieces));
        proof { pieces = pieces + piece_if(p.seconds > 0, c@); }
        let c = labeled("MS:", p.millis as u64);
        push_piece_if(&mut s, " ", p.millis > 0, c.as_str(), Ghost(pieces));
        proof { pieces = pieces + piece_if(p.millis > 0, c@); }
        let c = labeled("μs:", p.micros as u64);
        push_piece_if(&mut s, " ", p.micros > 0, c.as_str(), Ghost(pieces));
        proof { pieces = pieces + piece_if(p.micros > 0, c@); }
        let sub_micro = p.nanos % 1000;
        assert(sub_micro == spec_parts(self.secs, self.nanos).nanos % 1000);
        let c = labeled("ns:", sub_micro as u64);
        push_piece_if(&mut s, " ", sub_micro > 0, c.as_str(), Ghost(pieces));
        proof {
            pieces = pieces + piece_if(sub_micro > 0, c@);
            let sp = spec_parts(self.secs, self.nanos);
            assert(pieces =~= piece_if(sp.days > 0, "D:"@ + dec(sp.days as nat))
                + piece_if(sp.hours > 0, "H:"@ + dec(sp.hours as nat))
                + piece_if(sp.minutes > 0, "M:"@ + dec(sp.minutes as nat))
                + piece_if(sp.seconds > 0, "S:"@ + dec(sp.seconds as nat))
                + piece_if(sp.millis > 0, "MS:"@ + dec(sp.millis as nat))
                + piece_if(sp.micros > 0, "μs:"@ + dec(sp.micros as nat))
                + piece_if(sp.nanos % 1000 > 0, "ns:"@ + dec((sp.nanos % 1000) as nat)));
            lemma_join_empty(pieces, " "@);
        }
        if s.as_str().is_empty() {
            String::from_str("0s")
        } else {
            s
        }
    }
}


impl HumanDuration {
    /// Automatic style.
    pub fn fmt_auto(&self) -> (r: String)
        requires
            self.wf(),
            self.spec_language() != Language::Random,
        ensures
            r@ == spec_auto(spec_parts(self.spec_secs(), self.spec_nanos()), self.spec_language()),
    {
        let p = self.get_parts();
        if p.days > 0 {
            self.fmt_detailed()
        } else if p.hours > 0 || p.minutes > 0 {
            self.fmt_compact()
        } else if p.seconds > 0 {
            let mut s = u64_to_string(p.seconds);
            s.append(".");
            append_string(&mut s, u64_to_padded_string(p.millis as u64, 3));
            s.append(self.get_unit_str(TimeUnit::Second, p.seconds, false));
            s
        } else if p.millis > 0 {
            let mut s = u64_to_string(p.millis as u64);
            s.append(self.get_unit_str(TimeUnit::Millisecond, p.millis as u64, false));
            s
        } else if p.micros > 0 {
            let mut s = u64_to_string(p.micros as u64);
            s.append(self.get_unit_str(TimeUnit::Microsecond, p.micros as u64, false));
            s
        } else {
            let mut s = String::from_str("0");
            s.append(self.get_unit_str(TimeUnit::Second, 0, false));
            s
        }
    }

    /// Renders in the selected style and language, neither of them random.
    fn render(&self) -> (r: String)
        requires
            self.wf(),
            self.spec_language() != Language::Random,
            self.spec_format() != DurationFormat::Random,
        ensures
            r@ == spec_render(
                self.spec_secs(),
                self.spec_nanos(),
                self.spec_format(),
                self.spec_language(),
            ),
    {
        match self.format {
            DurationFormat::Compact => self.fmt_compact(),
            DurationFormat::Standard => self.fmt_standard(),
            DurationFormat::Detailed => self.fmt_detailed(),
            DurationFormat::ISO8601 => self.fmt_iso8601(),
            DurationFormat::Fuzzy => self.fmt_fuzzy(),
            DurationFormat::Numeric => self.fmt_numeric(),
            DurationFormat::Verbose => self.fmt_verbose(),
            _ => self.fmt_auto(),
        }
    }

    /// The text of the duration in the selected style and language.  A
    /// `Random` style or language is first replaced by one drawn at random.
    pub fn to_string(&self) -> (r: String)
        requires
            self.wf(),
        ensures
            self.spec_format() != DurationFormat::Random && self.spec_language() != Language::Random
                ==> r@ == spec_render(
                self.spec_secs(),
                self.spec_nanos(),
                self.spec_format(),
                self.spec_language(),
            ),
            exists|f: DurationFormat, l: Language|
                #![trigger spec_render(self.spec_secs(), self.spec_nanos(), f, l)]
                {
                    &&& f != DurationFormat::Random
                    &&& (self.spec_format() == DurationFormat::Random ==> f != DurationFormat::Auto)
                    &&& l != Language::Random
                    &&& (self.spec_format() != DurationFormat::Random ==> f == self.spec_format())
                    &&& (self.spec_language() != Language::Random ==> l == self.spec_language())
                    &&& r@ == spec_render(self.spec_secs(), self.spec_nanos(), f, l)
                },
    {
        let format = if self.format == DurationFormat::Random {
            Self::random_format()
        } else {
            self.format
        };
        let language = if self.language == Language::Random {
            Self::random_language()
        } else {
            self.language
        };
        let resolved = HumanDuration { secs: self.secs, nanos: self.nanos, format, language };
        let r = resolved.render();
        assert(r@ == spec_render(self.spec_secs(), self.spec_nanos(), format, language));
        r
    }
}

/// Wraps `duration` with the default style (automatic) and language (Chinese).
pub fn human(duration: Duration) -> (r: HumanDuration)
    ensures
        r.wf(),
        r.spec_secs() == whole_secs_of(duration),
        r.spec_nanos() == subsec_nanos_of(duration),
        r.spec_format() == DurationFormat::Auto,
        r.spec_language() == Language::Chinese,
{
    HumanDuration::new(duration)
}

} // verus!
