//! The language the UI strings are drawn in when the setting says
//! `system`: the POSIX message locale — `LC_ALL`, else `LC_MESSAGES`, else
//! `LANG` — reduced to the `language[-REGION]` tag the string resolver
//! reads. `C` and `POSIX` carry no language and resolve to the product's
//! own default (the empty tag).

use crate::text::{chars_of, push_char};
use vstd::prelude::*;

verus! {

/// The length of the locale's base: everything before the first `.`
/// (codeset) or `@` (modifier).
pub open spec fn base_length(locale: Seq<char>) -> nat
    decreases locale.len(),
{
    if locale.len() == 0 || locale[0] == '.' || locale[0] == '@' {
        0
    } else {
        1 + base_length(locale.drop_first())
    }
}

pub open spec fn locale_base(locale: Seq<char>) -> Seq<char> {
    locale.take(base_length(locale) as int)
}

pub open spec fn hyphenated(text: Seq<char>) -> Seq<char> {
    text.map_values(|c: char| if c == '_' { '-' } else { c })
}

pub open spec fn is_c_locale(base: Seq<char>) -> bool {
    base == seq!['C'] || base == seq!['P', 'O', 'S', 'I', 'X']
}

/// `zh_TW.UTF-8@foo` → `zh-TW`; `C` / `POSIX` → empty.
pub open spec fn tag_spec(locale: Seq<char>) -> Seq<char> {
    if is_c_locale(locale_base(locale)) {
        Seq::empty()
    } else {
        hyphenated(locale_base(locale))
    }
}

proof fn lemma_base_length_bound(locale: Seq<char>)
    ensures
        base_length(locale) <= locale.len(),
    decreases locale.len(),
{
    if locale.len() > 0 && locale[0] != '.' && locale[0] != '@' {
        lemma_base_length_bound(locale.drop_first());
    }
}

/// `base_length` is the index of the first separator, or the length.
proof fn lemma_base_length_is_first_separator(locale: Seq<char>)
    ensures
        base_length(locale) <= locale.len(),
        forall|i: int| 0 <= i < base_length(locale) ==> locale[i] != '.' && locale[i] != '@',
        base_length(locale) < locale.len() ==> (locale[base_length(locale) as int] == '.'
            || locale[base_length(locale) as int] == '@'),
    decreases locale.len(),
{
    if locale.len() > 0 && locale[0] != '.' && locale[0] != '@' {
        let rest = locale.drop_first();
        lemma_base_length_is_first_separator(rest);
        assert forall|i: int| 0 <= i < base_length(locale) implies locale[i] != '.' && locale[i]
            != '@' by {
            if i > 0 {
                assert(locale[i] == rest[i - 1]);
            }
        }
    }
}

proof fn lemma_first_separator_is_base_length(locale: Seq<char>, k: int)
    requires
        0 <= k <= locale.len(),
        forall|i: int| 0 <= i < k ==> locale[i] != '.' && locale[i] != '@',
        k < locale.len() ==> (locale[k] == '.' || locale[k] == '@'),
    ensures
        base_length(locale) == k,
    decreases locale.len(),
{
    if k > 0 {
        let rest = locale.drop_first();
        assert forall|i: int| 0 <= i < k - 1 implies rest[i] != '.' && rest[i] != '@' by {
            assert(rest[i] == locale[i + 1]);
        }
        if k - 1 < rest.len() {
            assert(rest[k - 1] == locale[k]);
        }
        lemma_first_separator_is_base_length(rest, k - 1);
    }
}

/// The locale's `language[-REGION]` tag.
pub fn tag_of(locale: &str) -> (tag: String)
    ensures
        tag@ == tag_spec(locale@),
{
    let chars = chars_of(locale);
    let mut end: usize = 0;
    while end < chars.len() && chars[end] != '.' && chars[end] != '@'
        invariant
            chars@ == locale@,
            end <= chars@.len(),
            forall|i: int| 0 <= i < end ==> chars@[i] != '.' && chars@[i] != '@',
        decreases chars@.len() - end,
    {
        end = end + 1;
    }
    proof {
        lemma_first_separator_is_base_length(locale@, end as int);
    }
    let ghost base = locale@.take(end as int);
    assert(base == locale_base(locale@));
    let is_c = end == 1 && chars[0] == 'C';
    let is_posix = end == 5 && chars[0] == 'P' && chars[1] == 'O' && chars[2] == 'S' && chars[3]
        == 'I' && chars[4] == 'X';
    proof {
        if base == seq!['C'] {
            assert(base.len() == 1 && base[0] == 'C');
        }
        if base == seq!['P', 'O', 'S', 'I', 'X'] {
            assert(base.len() == 5 && base[0] == 'P' && base[1] == 'O' && base[2] == 'S'
                && base[3] == 'I' && base[4] == 'X');
        }
        if is_c {
            assert(base =~= seq!['C']);
        }
        if is_posix {
            assert(base =~= seq!['P', 'O', 'S', 'I', 'X']);
        }
    }
    let mut tag = String::new();
    if is_c || is_posix {
        return tag;
    }
    let mut i: usize = 0;
    while i < end
        invariant
            chars@ == locale@,
            end <= chars@.len(),
            i <= end,
            base == locale@.take(end as int),
            tag@ == hyphenated(base.take(i as int)),
        decreases end - i,
    {
        let c = chars[i];
        push_char(
            &mut tag,
            if c == '_' {
                '-'
            } else {
                c
            },
        );
        proof {
            assert(base.take(i + 1) =~= base.take(i as int).push(c));
            assert(hyphenated(base.take(i + 1)) =~= hyphenated(base.take(i as int)).push(
                if c == '_' {
                    '-'
                } else {
                    c
                },
            ));
        }
        i = i + 1;
    }
    assert(base.take(end as int) =~= base);
    tag
}

/// The first of the three variables (`LC_ALL`, `LC_MESSAGES`, `LANG`)
/// that is set and not empty.
pub open spec fn first_set(values: Seq<Option<Seq<char>>>) -> Option<Seq<char>>
    decreases values.len(),
{
    if values.len() == 0 {
        None
    } else {
        match values[0] {
            Some(v) if v.len() > 0 => Some(v),
            _ => first_set(values.drop_first()),
        }
    }
}

/// The tag of the locale the first set, non-empty variable names; the
/// empty tag when none is set.
pub open spec fn system_locale_spec(
    lc_all: Option<Seq<char>>,
    lc_messages: Option<Seq<char>>,
    lang: Option<Seq<char>>,
) -> Seq<char> {
    match first_set(seq![lc_all, lc_messages, lang]) {
        Some(value) => tag_spec(value),
        None => Seq::empty(),
    }
}

pub open spec fn view_of(value: Option<String>) -> Option<Seq<char>> {
    match value {
        Some(s) => Some(s@),
        None => None,
    }
}

/// The UI tag from the values of `LC_ALL`, `LC_MESSAGES` and `LANG` (each
/// `None` when unset): the first non-empty one wins, an empty one is
/// skipped.
pub fn system_locale_from(
    lc_all: Option<String>,
    lc_messages: Option<String>,
    lang: Option<String>,
) -> (tag: String)
    ensures
        tag@ == system_locale_spec(view_of(lc_all), view_of(lc_messages), view_of(lang)),
{
    let ghost values = seq![view_of(lc_all), view_of(lc_messages), view_of(lang)];
    proof {
        assert(values.drop_first() =~= seq![view_of(lc_messages), view_of(lang)]);
        assert(values.drop_first().drop_first() =~= seq![view_of(lang)]);
        assert(values.drop_first().drop_first().drop_first() =~= Seq::<Option<Seq<char>>>::empty());
        reveal_with_fuel(first_set, 4);
    }
    if let Some(value) = &lc_all {
        if value.as_str().unicode_len() > 0 {
            return tag_of(value.as_str());
        }
    }
    if let Some(value) = &lc_messages {
        if value.as_str().unicode_len() > 0 {
            return tag_of(value.as_str());
        }
    }
    if let Some(value) = &lang {
        if value.as_str().unicode_len() > 0 {
            return tag_of(value.as_str());
        }
    }
    String::new()
}

/// The UI tag from the environment `env` reads: the first of `LC_ALL`,
/// `LC_MESSAGES` and `LANG` that is set and not empty wins.
pub fn system_locale_with(env: impl Fn(&str) -> Option<String>) -> (tag: String)
    requires
        forall|name: &str| env.requires((name,)),
    ensures
        exists|lc_all: Option<String>, lc_messages: Option<String>, lang: Option<String>|
            {
                &&& #[trigger] env.ensures(("LC_ALL",), lc_all)
                &&& #[trigger] env.ensures(("LC_MESSAGES",), lc_messages)
                &&& #[trigger] env.ensures(("LANG",), lang)
                &&& tag@ == system_locale_spec(view_of(lc_all), view_of(lc_messages), view_of(lang))
            },
{
    let lc_all = env("LC_ALL");
    let lc_messages = env("LC_MESSAGES");
    let lang = env("LANG");
    let ghost values = (lc_all, lc_messages, lang);
    let tag = system_locale_from(lc_all, lc_messages, lang);
    assert(env.ensures(("LC_ALL",), values.0) && env.ensures(("LC_MESSAGES",), values.1)
        && env.ensures(("LANG",), values.2));
    tag
}

/// A set, non-empty `LC_ALL` decides alone: the other two are not read.
pub proof fn lemma_lc_all_wins(
    lc_all: Seq<char>,
    lc_messages: Option<Seq<char>>,
    lang: Option<Seq<char>>,
)
    requires
        lc_all.len() > 0,
    ensures
        system_locale_spec(Some(lc_all), lc_messages, lang) == tag_spec(lc_all),
{
    reveal_with_fuel(first_set, 2);
}

/// An empty variable is skipped as if it were unset.
pub proof fn lemma_empty_is_unset(lc_messages: Option<Seq<char>>, lang: Option<Seq<char>>)
    ensures
        system_locale_spec(Some(Seq::empty()), lc_messages, lang) == system_locale_spec(
            None,
            lc_messages,
            lang,
        ),
{
    let a = seq![Some(Seq::<char>::empty()), lc_messages, lang];
    let b = seq![None::<Seq<char>>, lc_messages, lang];
    assert(a.drop_first() =~= b.drop_first());
    reveal_with_fuel(first_set, 2);
}

/// The tag never carries the codeset or the modifier, and never an
/// underscore.
pub proof fn lemma_tag_has_no_separators(locale: Seq<char>)
    ensures
        forall|i: int|
            0 <= i < tag_spec(locale).len() ==> tag_spec(locale)[i] != '.' && tag_spec(
                locale,
            )[i] != '@' && tag_spec(locale)[i] != '_',
{
    lemma_base_length_is_first_separator(locale);
}

} // verus!
