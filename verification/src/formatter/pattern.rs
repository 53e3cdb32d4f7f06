//! The catalog of date-time patterns: each pattern has a format template and
//! a canonical name, and both can be looked up in reverse.

use crate::text::str_eq;
use vstd::prelude::*;

verus! {

/// A named date-time display pattern.
#[derive(Clone, Copy, Debug, PartialEq, Eq, Structural)]
pub enum DateTimePattern {
    /// `%Y-%m-%d`
    YyyyMmDd,
    /// `%m/%d/%Y`
    MmDdYyyy,
    /// `%d-%m-%Y`
    DdMmYyyy,
    /// `%Y-%m-%d %H:%M`
    YyyyMmDdHhMm,
    /// `%Y-%m-%d %H:%M:%S`
    YyyyMmDdHhMmSs,
    /// `%Y-%m-%d %H:%M:%S%.3f`
    YyyyMmDdHhMmSsSss,
    /// `%H:%M`
    HhMm,
    /// `%H:%M:%S`
    HhMmSs,
    /// `%B`, the full month name
    MonthFull,
    /// `%b`, the abbreviated month name
    MonthAbbr,
    /// `%A`, the full weekday name
    WeekdayFull,
    /// `%a`, the abbreviated weekday name
    WeekdayAbbr,
    /// `%p`, the meridiem indicator
    AmPm,
    /// Seconds since the Unix epoch, in decimal
    Timestamp,
}

impl DateTimePattern {
    /// The template of `YyyyMmDd`.
    pub const YYYY_MM_DD: &'static str = "%Y-%m-%d";

    /// The template of `MmDdYyyy`.
    pub const MM_DD_YYYY: &'static str = "%m/%d/%Y";

    /// The template of `DdMmYyyy`.
    pub const DD_MM_YYYY: &'static str = "%d-%m-%Y";

    /// The template of `YyyyMmDdHhMm`.
    pub const YYYY_MM_DD_HH_MM: &'static str = "%Y-%m-%d %H:%M";

    /// The template of `YyyyMmDdHhMmSs`.
    pub const YYYY_MM_DD_HH_MM_SS: &'static str = "%Y-%m-%d %H:%M:%S";

    /// The template of `YyyyMmDdHhMmSsSss`.
    pub const YYYY_MM_DD_HH_MM_SS_SSS: &'static str = "%Y-%m-%d %H:%M:%S%.3f";

    /// The template of `HhMm`.
    pub const HH_MM: &'static str = "%H:%M";

    /// The template of `HhMmSs`.
    pub const HH_MM_SS: &'static str = "%H:%M:%S";

    /// The template of `MonthFull`.
    pub const MONTH_FULL: &'static str = "%B";

    /// The template of `MonthAbbr`.
    pub const MONTH_ABBR: &'static str = "%b";

    /// The template of `WeekdayFull`.
    pub const WEEKDAY_FULL: &'static str = "%A";

    /// The template of `WeekdayAbbr`.
    pub const WEEKDAY_ABBR: &'static str = "%a";

    /// The template of `AmPm`.
    pub const AM_PM: &'static str = "%p";

    /// Stands in for the template of `Timestamp`, which is rendered without one.
    pub const TIMESTAMP: &'static str = "timestamp";

    /// The canonical name of `YyyyMmDd`.
    pub const YYYY_MM_DD_NAME: &'static str = "YyyyMmDd";

    /// The canonical name of `MmDdYyyy`.
    pub const MM_DD_YYYY_NAME: &'static str = "MmDdYyyy";

    /// The canonical name of `DdMmYyyy`.
    pub const DD_MM_YYYY_NAME: &'static str = "DdMmYyyy";

    /// The canonical name of `YyyyMmDdHhMm`.
    pub const YYYY_MM_DD_HH_MM_NAME: &'static str = "YyyyMmDdHhMm";

    /// The canonical name of `YyyyMmDdHhMmSs`.
    pub const YYYY_MM_DD_HH_MM_SS_NAME: &'static str = "YyyyMmDdHhMmSs";

    /// The canonical name of `YyyyMmDdHhMmSsSss`.
    pub const YYYY_MM_DD_HH_MM_SS_SSS_NAME: &'static str = "YyyyMmDdHhMmSsSss";

    /// The canonical name of `HhMm`.
    pub const HH_MM_NAME: &'static str = "HhMm";

    /// The canonical name of `HhMmSs`.
    pub const HH_MM_SS_NAME: &'static str = "HhMmSs";

    /// The canonical name of `MonthFull`.
    pub const MONTH_FULL_NAME: &'static str = "MonthFull";

    /// The canonical name of `MonthAbbr`.
    pub const MONTH_ABBR_NAME: &'static str = "MonthAbbr";

    /// The canonical name of `WeekdayFull`.
    pub const WEEKDAY_FULL_NAME: &'static str = "WeekdayFull";

    /// The canonical name of `WeekdayAbbr`.
    pub const WEEKDAY_ABBR_NAME: &'static str = "WeekdayAbbr";

    /// The canonical name of `AmPm`.
    pub const AM_PM_NAME: &'static str = "AmPm";

    /// The canonical name of `Timestamp`.
    pub const TIMESTAMP_NAME: &'static str = "Timestamp";

    /// The format template of a pattern; for `Timestamp`, the literal that
    /// stands in for one.
    pub open spec fn template(self) -> Seq<char> {
        match self {
            DateTimePattern::YyyyMmDd => "%Y-%m-%d"@,
            DateTimePattern::MmDdYyyy => "%m/%d/%Y"@,
            DateTimePattern::DdMmYyyy => "%d-%m-%Y"@,
            DateTimePattern::YyyyMmDdHhMm => "%Y-%m-%d %H:%M"@,
            DateTimePattern::YyyyMmDdHhMmSs => "%Y-%m-%d %H:%M:%S"@,
            DateTimePattern::YyyyMmDdHhMmSsSss => "%Y-%m-%d %H:%M:%S%.3f"@,
            DateTimePattern::HhMm => "%H:%M"@,
            DateTimePattern::HhMmSs => "%H:%M:%S"@,
            DateTimePattern::MonthFull => "%B"@,
            DateTimePattern::MonthAbbr => "%b"@,
            DateTimePattern::WeekdayFull => "%A"@,
            DateTimePattern::WeekdayAbbr => "%a"@,
            DateTimePattern::AmPm => "%p"@,
            DateTimePattern::Timestamp => "timestamp"@,
        }
    }

    /// The format template of this pattern.
    pub fn pattern_of(&self) -> (template: &'static str)
        ensures
            template@ == self.template(),
    {
        match self {
            DateTimePattern::YyyyMmDd => DateTimePattern::YYYY_MM_DD,
            DateTimePattern::MmDdYyyy => DateTimePattern::MM_DD_YYYY,
            DateTimePattern::DdMmYyyy => DateTimePattern::DD_MM_YYYY,
            DateTimePattern::YyyyMmDdHhMm => DateTimePattern::YYYY_MM_DD_HH_MM,
            DateTimePattern::YyyyMmDdHhMmSs => DateTimePattern::YYYY_MM_DD_HH_MM_SS,
            DateTimePattern::YyyyMmDdHhMmSsSss => DateTimePattern::YYYY_MM_DD_HH_MM_SS_SSS,
            DateTimePattern::HhMm => DateTimePattern::HH_MM,
            DateTimePattern::HhMmSs => DateTimePattern::HH_MM_SS,
            DateTimePattern::MonthFull => DateTimePattern::MONTH_FULL,
            DateTimePattern::MonthAbbr => DateTimePattern::MONTH_ABBR,
            DateTimePattern::WeekdayFull => DateTimePattern::WEEKDAY_FULL,
            DateTimePattern::WeekdayAbbr => DateTimePattern::WEEKDAY_ABBR,
            DateTimePattern::AmPm => DateTimePattern::AM_PM,
            DateTimePattern::Timestamp => DateTimePattern::TIMESTAMP,
        }
    }

    /// The canonical name of a pattern: the variant's identifier as text.
    pub open spec fn name(self) -> Seq<char> {
        match self {
            DateTimePattern::YyyyMmDd => "YyyyMmDd"@,
            DateTimePattern::MmDdYyyy => "MmDdYyyy"@,
            DateTimePattern::DdMmYyyy => "DdMmYyyy"@,
            DateTimePattern::YyyyMmDdHhMm => "YyyyMmDdHhMm"@,
            DateTimePattern::YyyyMmDdHhMmSs => "YyyyMmDdHhMmSs"@,
            DateTimePattern::YyyyMmDdHhMmSsSss => "YyyyMmDdHhMmSsSss"@,
            DateTimePattern::HhMm => "HhMm"@,
            DateTimePattern::HhMmSs => "HhMmSs"@,
            DateTimePattern::MonthFull => "MonthFull"@,
            DateTimePattern::MonthAbbr => "MonthAbbr"@,
            DateTimePattern::WeekdayFull => "WeekdayFull"@,
            DateTimePattern::WeekdayAbbr => "WeekdayAbbr"@,
            DateTimePattern::AmPm => "AmPm"@,
            DateTimePattern::Timestamp => "Timestamp"@,
        }
    }

    /// Whether `template` is the template of a pattern that is rendered
    /// through a template, that is, of any pattern but `Timestamp`.
    pub open spec fn is_format_template(template: Seq<char>) -> bool {
        exists|p: DateTimePattern| p != DateTimePattern::Timestamp && p.template() == template
    }

    /// The pattern whose template is `template`, if there is one.
    pub open spec fn spec_value_of(template: Seq<char>) -> Option<DateTimePattern> {
        if exists|p: DateTimePattern| p.template() == template {
            Some(choose|p: DateTimePattern| p.template() == template)
        } else {
            None
        }
    }

    /// The pattern whose canonical name is `name`, if there is one.
    pub open spec fn spec_name_of(name: Seq<char>) -> Option<DateTimePattern> {
        if exists|p: DateTimePattern| p.name() == name {
            Some(choose|p: DateTimePattern| p.name() == name)
        } else {
            None
        }
    }

    /// The canonical name of this pattern.
    pub fn value(&self) -> (name: String)
        ensures
            name@ == self.name(),
    {
        let name: &'static str = match self {
            DateTimePattern::YyyyMmDd => DateTimePattern::YYYY_MM_DD_NAME,
            DateTimePattern::MmDdYyyy => DateTimePattern::MM_DD_YYYY_NAME,
            DateTimePattern::DdMmYyyy => DateTimePattern::DD_MM_YYYY_NAME,
            DateTimePattern::YyyyMmDdHhMm => DateTimePattern::YYYY_MM_DD_HH_MM_NAME,
            DateTimePattern::YyyyMmDdHhMmSs => DateTimePattern::YYYY_MM_DD_HH_MM_SS_NAME,
            DateTimePattern::YyyyMmDdHhMmSsSss => DateTimePattern::YYYY_MM_DD_HH_MM_SS_SSS_NAME,
            DateTimePattern::HhMm => DateTimePattern::HH_MM_NAME,
            DateTimePattern::HhMmSs => DateTimePattern::HH_MM_SS_NAME,
            DateTimePattern::MonthFull => DateTimePattern::MONTH_FULL_NAME,
            DateTimePattern::MonthAbbr => DateTimePattern::MONTH_ABBR_NAME,
            DateTimePattern::WeekdayFull => DateTimePattern::WEEKDAY_FULL_NAME,
            DateTimePattern::WeekdayAbbr => DateTimePattern::WEEKDAY_ABBR_NAME,
            DateTimePattern::AmPm => DateTimePattern::AM_PM_NAME,
            DateTimePattern::Timestamp => DateTimePattern::TIMESTAMP_NAME,
        };
        name.to_owned()
    }

    /// Looks a pattern up by its template. The lookup is exact and
    /// case-sensitive; a string that is no pattern's template gives `None`.
    pub fn value_of(pattern: &str) -> (found: Option<DateTimePattern>)
        ensures
            found == Self::spec_value_of(pattern@),
            found matches Some(p) ==> p.template() == pattern@,
            found is None ==> forall|p: DateTimePattern| p.template() != pattern@,
    {
        if str_eq(pattern, DateTimePattern::YYYY_MM_DD) {
            proof {
                lemma_value_of_pattern_of(DateTimePattern::YyyyMmDd);
            }
            Some(DateTimePattern::YyyyMmDd)
        } else if str_eq(pattern, DateTimePattern::MM_DD_YYYY) {
            proof {
                lemma_value_of_pattern_of(DateTimePattern::MmDdYyyy);
            }
            Some(DateTimePattern::MmDdYyyy)
        } else if str_eq(pattern, DateTimePattern::DD_MM_YYYY) {
            proof {
                lemma_value_of_pattern_of(DateTimePattern::DdMmYyyy);
            }
            Some(DateTimePattern::DdMmYyyy)
        } else if str_eq(pattern, DateTimePattern::YYYY_MM_DD_HH_MM) {
            proof {
                lemma_value_of_pattern_of(DateTimePattern::YyyyMmDdHhMm);
            }
            Some(DateTimePattern::YyyyMmDdHhMm)
        } else if str_eq(pattern, DateTimePattern::YYYY_MM_DD_HH_MM_SS) {
            proof {
                lemma_value_of_pattern_of(DateTimePattern::YyyyMmDdHhMmSs);
            }
            Some(DateTimePattern::YyyyMmDdHhMmSs)
        } else if str_eq(pattern, DateTimePattern::YYYY_MM_DD_HH_MM_SS_SSS) {
            proof {
                lemma_value_of_pattern_of(DateTimePattern::YyyyMmDdHhMmSsSss);
            }
            Some(DateTimePattern::YyyyMmDdHhMmSsSss)
        } else if str_eq(pattern, DateTimePattern::HH_MM) {
            proof {
                lemma_value_of_pattern_of(DateTimePattern::HhMm);
            }
            Some(DateTimePattern::HhMm)
        } else if str_eq(pattern, DateTimePattern::HH_MM_SS) {
            proof {
                lemma_value_of_pattern_of(DateTimePattern::HhMmSs);
            }
            Some(DateTimePattern::HhMmSs)
        } else if str_eq(pattern, DateTimePattern::MONTH_FULL) {
            proof {
                lemma_value_of_pattern_of(DateTimePattern::MonthFull);
            }
            Some(DateTimePattern::MonthFull)
        } else if str_eq(pattern, DateTimePattern::MONTH_ABBR) {
            proof {
                lemma_value_of_pattern_of(DateTimePattern::MonthAbbr);
            }
            Some(DateTimePattern::MonthAbbr)
        } else if str_eq(pattern, DateTimePattern::WEEKDAY_FULL) {
            proof {
                lemma_value_of_pattern_of(DateTimePattern::WeekdayFull);
            }
            Some(DateTimePattern::WeekdayFull)
        } else if str_eq(pattern, DateTimePattern::WEEKDAY_ABBR) {
            proof {
                lemma_value_of_pattern_of(DateTimePattern::WeekdayAbbr);
            }
            Some(DateTimePattern::WeekdayAbbr)
        } else if str_eq(pattern, DateTimePattern::AM_PM) {
            proof {
                lemma_value_of_pattern_of(DateTimePattern::AmPm);
            }
            Some(DateTimePattern::AmPm)
        } else if str_eq(pattern, DateTimePattern::TIMESTAMP) {
            proof {
                lemma_value_of_pattern_of(DateTimePattern::Timestamp);
            }
            Some(DateTimePattern::Timestamp)
        } else {
            None
        }
    }

    /// Looks a pattern up by its canonical name. The lookup is exact and
    /// case-sensitive; a string that is no pattern's name gives `None`.
    pub fn name_of(name: &str) -> (found: Option<DateTimePattern>)
        ensures
            found == Self::spec_name_of(name@),
            found matches Some(p) ==> p.name() == name@,
            found is None ==> forall|p: DateTimePattern| p.name() != name@,
    {
        if str_eq(name, DateTimePattern::YYYY_MM_DD_NAME) {
            proof {
                lemma_name_of_value(DateTimePattern::YyyyMmDd);
            }
            Some(DateTimePattern::YyyyMmDd)
        } else if str_eq(name, DateTimePattern::MM_DD_YYYY_NAME) {
            proof {
                lemma_name_of_value(DateTimePattern::MmDdYyyy);
            }
            Some(DateTimePattern::MmDdYyyy)
        } else if str_eq(name, DateTimePattern::DD_MM_YYYY_NAME) {
            proof {
                lemma_name_of_value(DateTimePattern::DdMmYyyy);
            }
            Some(DateTimePattern::DdMmYyyy)
        } else if str_eq(name, DateTimePattern::YYYY_MM_DD_HH_MM_NAME) {
            proof {
                lemma_name_of_value(DateTimePattern::YyyyMmDdHhMm);
            }
            Some(DateTimePattern::YyyyMmDdHhMm)
        } else if str_eq(name, DateTimePattern::YYYY_MM_DD_HH_MM_SS_NAME) {
            proof {
                lemma_name_of_value(DateTimePattern::YyyyMmDdHhMmSs);
            }
            Some(DateTimePattern::YyyyMmDdHhMmSs)
        } else if str_eq(name, DateTimePattern::YYYY_MM_DD_HH_MM_SS_SSS_NAME) {
            proof {
                lemma_name_of_value(DateTimePattern::YyyyMmDdHhMmSsSss);
            }
            Some(DateTimePattern::YyyyMmDdHhMmSsSss)
        } else if str_eq(name, DateTimePattern::HH_MM_NAME) {
            proof {
                lemma_name_of_value(DateTimePattern::HhMm);
            }
            Some(DateTimePattern::HhMm)
        } else if str_eq(name, DateTimePattern::HH_MM_SS_NAME) {
            proof {
                lemma_name_of_value(DateTimePattern::HhMmSs);
            }
            Some(DateTimePattern::HhMmSs)
        } else if str_eq(name, DateTimePattern::MONTH_FULL_NAME) {
            proof {
                lemma_name_of_value(DateTimePattern::MonthFull);
            }
            Some(DateTimePattern::MonthFull)
        } else if str_eq(name, DateTimePattern::MONTH_ABBR_NAME) {
            proof {
                lemma_name_of_value(DateTimePattern::MonthAbbr);
            }
            Some(DateTimePattern::MonthAbbr)
        } else if str_eq(name, DateTimePattern::WEEKDAY_FULL_NAME) {
            proof {
                lemma_name_of_value(DateTimePattern::WeekdayFull);
            }
            Some(DateTimePattern::WeekdayFull)
        } else if str_eq(name, DateTimePattern::WEEKDAY_ABBR_NAME) {
            proof {
                lemma_name_of_value(DateTimePattern::WeekdayAbbr);
            }
            Some(DateTimePattern::WeekdayAbbr)
        } else if str_eq(name, DateTimePattern::AM_PM_NAME) {
            proof {
                lemma_name_of_value(DateTimePattern::AmPm);
            }
            Some(DateTimePattern::AmPm)
        } else if str_eq(name, DateTimePattern::TIMESTAMP_NAME) {
            proof {
                lemma_name_of_value(DateTimePattern::Timestamp);
            }
            Some(DateTimePattern::Timestamp)
        } else {
            None
        }
    }
}

/// The length and second character of each template: enough to tell any
/// two of them apart.
proof fn lemma_template_marks(p: DateTimePattern)
    ensures
        match p {
            DateTimePattern::YyyyMmDd => p.template().len() == 8 && p.template()[1] == 'Y',
            DateTimePattern::MmDdYyyy => p.template().len() == 8 && p.template()[1] == 'm',
            DateTimePattern::DdMmYyyy => p.template().len() == 8 && p.template()[1] == 'd',
            DateTimePattern::YyyyMmDdHhMm => p.template().len() == 14,
            DateTimePattern::YyyyMmDdHhMmSs => p.template().len() == 17,
            DateTimePattern::YyyyMmDdHhMmSsSss => p.template().len() == 21,
            DateTimePattern::HhMm => p.template().len() == 5,
            DateTimePattern::HhMmSs => p.template().len() == 8 && p.template()[1] == 'H',
            DateTimePattern::MonthFull => p.template().len() == 2 && p.template()[1] == 'B',
            DateTimePattern::MonthAbbr => p.template().len() == 2 && p.template()[1] == 'b',
            DateTimePattern::WeekdayFull => p.template().len() == 2 && p.template()[1] == 'A',
            DateTimePattern::WeekdayAbbr => p.template().len() == 2 && p.template()[1] == 'a',
            DateTimePattern::AmPm => p.template().len() == 2 && p.template()[1] == 'p',
            DateTimePattern::Timestamp => p.template().len() == 9,
        },
{
    reveal_strlit("%Y-%m-%d");
    reveal_strlit("%m/%d/%Y");
    reveal_strlit("%d-%m-%Y");
    reveal_strlit("%Y-%m-%d %H:%M");
    reveal_strlit("%Y-%m-%d %H:%M:%S");
    reveal_strlit("%Y-%m-%d %H:%M:%S%.3f");
    reveal_strlit("%H:%M");
    reveal_strlit("%H:%M:%S");
    reveal_strlit("%B");
    reveal_strlit("%b");
    reveal_strlit("%A");
    reveal_strlit("%a");
    reveal_strlit("%p");
    reveal_strlit("timestamp");
}

/// No two patterns share a template.
pub proof fn lemma_template_is_injective(a: DateTimePattern, b: DateTimePattern)
    requires
        a.template() == b.template(),
    ensures
        a == b,
{
    lemma_template_marks(a);
    lemma_template_marks(b);
}

/// The length of each name and, where two names are equally long, a
/// character in which they differ.
proof fn lemma_name_marks(p: DateTimePattern)
    ensures
        match p {
            DateTimePattern::YyyyMmDd => p.name().len() == 8 && p.name()[0] == 'Y',
            DateTimePattern::MmDdYyyy => p.name().len() == 8 && p.name()[0] == 'M',
            DateTimePattern::DdMmYyyy => p.name().len() == 8 && p.name()[0] == 'D',
            DateTimePattern::YyyyMmDdHhMm => p.name().len() == 12,
            DateTimePattern::YyyyMmDdHhMmSs => p.name().len() == 14,
            DateTimePattern::YyyyMmDdHhMmSsSss => p.name().len() == 17,
            DateTimePattern::HhMm => p.name().len() == 4 && p.name()[0] == 'H',
            DateTimePattern::HhMmSs => p.name().len() == 6,
            DateTimePattern::MonthFull => p.name().len() == 9 && p.name()[5] == 'F',
            DateTimePattern::MonthAbbr => p.name().len() == 9 && p.name()[5] == 'A',
            DateTimePattern::WeekdayFull => p.name().len() == 11 && p.name()[7] == 'F',
            DateTimePattern::WeekdayAbbr => p.name().len() == 11 && p.name()[7] == 'A',
            DateTimePattern::AmPm => p.name().len() == 4 && p.name()[0] == 'A',
            DateTimePattern::Timestamp => p.name().len() == 9 && p.name()[5] == 't',
        },
{
    reveal_strlit("YyyyMmDd");
    reveal_strlit("MmDdYyyy");
    reveal_strlit("DdMmYyyy");
    reveal_strlit("YyyyMmDdHhMm");
    reveal_strlit("YyyyMmDdHhMmSs");
    reveal_strlit("YyyyMmDdHhMmSsSss");
    reveal_strlit("HhMm");
    reveal_strlit("HhMmSs");
    reveal_strlit("MonthFull");
    reveal_strlit("MonthAbbr");
    reveal_strlit("WeekdayFull");
    reveal_strlit("WeekdayAbbr");
    reveal_strlit("AmPm");
    reveal_strlit("Timestamp");
}

/// No two patterns share a canonical name.
pub proof fn lemma_name_is_injective(a: DateTimePattern, b: DateTimePattern)
    requires
        a.name() == b.name(),
    ensures
        a == b,
{
    lemma_name_marks(a);
    lemma_name_marks(b);
}

/// Looking up the template of a pattern gives that pattern back. This holds
/// of `Timestamp` too, through the literal that stands in for its template.
pub proof fn lemma_value_of_pattern_of(p: DateTimePattern)
    ensures
        DateTimePattern::spec_value_of(p.template()) == Some(p),
{
    let found = choose|q: DateTimePattern| q.template() == p.template();
    lemma_template_is_injective(found, p);
}

/// Looking up the canonical name of a pattern gives that pattern back.
pub proof fn lemma_name_of_value(p: DateTimePattern)
    ensures
        DateTimePattern::spec_name_of(p.name()) == Some(p),
{
    let found = choose|q: DateTimePattern| q.name() == p.name();
    lemma_name_is_injective(found, p);
}

} // verus!
