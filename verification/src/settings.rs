//! Settings read from the INI text of `Settings.ini`, through the
//! `configparser` crate.

use configparser::ini::Ini;
use vstd::prelude::*;

verus! {

#[verifier::external_type_specification]
#[verifier::external_body]
pub struct ExIni(Ini);

/// What an `Ini` holds: section name to key to optional value (a key written
/// without a delimiter has no value).
pub uninterp spec fn ini_contents(ini: Ini) -> Map<Seq<char>, Map<Seq<char>, Option<Seq<char>>>>;

/// Whether an `Ini` carries configparser's default options: case-insensitive
/// names, `=` and `:` as delimiters, `;` and `#` comments, no cascade to a
/// default section.
pub uninterp spec fn ini_default_options(ini: Ini) -> bool;

/// What configparser's parser, with its default options, makes of an INI
/// text: the sections and keys it holds, or `None` when the text is refused.
pub uninterp spec fn ini_parse(text: Seq<char>) -> Option<Map<Seq<char>, Map<Seq<char>, Option<Seq<char>>>>>;

/// A name made of ASCII characters only.
pub open spec fn is_ascii_name(name: Seq<char>) -> bool {
    forall|i: int| 0 <= i < name.len() ==> (#[trigger] name[i] as u32) < 128
}

/// What std's `str::to_lowercase` gives for a text (Unicode lower-casing).
pub uninterp spec fn str_to_lowercase(s: Seq<char>) -> Seq<char>;

/// The name configparser looks up for `name` with its default options: the
/// name lower-cased, which for an ASCII name is ASCII lower-casing.
pub open spec fn folded(name: Seq<char>) -> Seq<char> {
    if is_ascii_name(name) {
        lower_ascii(name)
    } else {
        str_to_lowercase(name)
    }
}

/// The value stored under `section` and `key`, if the key is present and was
/// given a value.
pub open spec fn lookup(
    entries: Map<Seq<char>, Map<Seq<char>, Option<Seq<char>>>>,
    section: Seq<char>,
    key: Seq<char>,
) -> Option<Seq<char>> {
    if entries.contains_key(section) && entries[section].contains_key(key) {
        entries[section][key]
    } else {
        None
    }
}

/// ASCII lower-casing of one character.
pub open spec fn ascii_lower(c: char) -> char {
    if 65 <= (c as u32) && (c as u32) <= 90 {
        ((c as u32) + 32) as char
    } else {
        c
    }
}

/// ASCII lower-casing of a text.
pub open spec fn lower_ascii(s: Seq<char>) -> Seq<char> {
    s.map_values(|c: char| ascii_lower(c))
}

/// What configparser's `getbool` reads from a value: `true` or `false` in
/// any letter case, nothing otherwise.
pub open spec fn bool_word(value: Seq<char>) -> Option<bool> {
    if lower_ascii(value) == "true"@ {
        Some(true)
    } else if lower_ascii(value) == "false"@ {
        Some(false)
    } else {
        None
    }
}

/// The value stored in `entries` under `section` and `key`, names compared as
/// configparser compares them.
pub open spec fn entries_value(
    entries: Map<Seq<char>, Map<Seq<char>, Option<Seq<char>>>>,
    section: Seq<char>,
    key: Seq<char>,
) -> Option<Seq<char>> {
    lookup(entries, folded(section), folded(key))
}

/// Whether the value in `entries` under `section` and `key` is on: `true` in
/// any letter case, or `1`. Anything else, or no value, is off.
pub open spec fn entries_flag(
    entries: Map<Seq<char>, Map<Seq<char>, Option<Seq<char>>>>,
    section: Seq<char>,
    key: Seq<char>,
) -> bool {
    match entries_value(entries, section, key) {
        Some(v) => bool_word(v) == Some(true) || v == "1"@,
        None => false,
    }
}

/// The contents of an INI text with no sections.
pub open spec fn no_sections() -> Map<Seq<char>, Map<Seq<char>, Option<Seq<char>>>> {
    Map::empty()
}

/// `Ini::new`: an empty configuration with the default options.
#[verifier::external_body]
fn ini_new() -> (fresh: Ini)
    ensures
        ini_contents(fresh) == no_sections(),
        ini_default_options(fresh),
{
    Ini::new()
}

/// `Ini::read`: parses `input` and, when it parses, replaces what the `Ini`
/// held; when it is refused the `Ini` is left as it was. The options are kept.
#[verifier::external_body]
fn ini_read(ini: &mut Ini, input: String) -> (res: Result<(), String>)
    ensures
        ini_default_options(*final(ini)) == ini_default_options(*old(ini)),
        ini_default_options(*old(ini)) ==> match ini_parse(input@) {
            Some(m) => res is Ok && ini_contents(*final(ini)) == m,
            None => res is Err && ini_contents(*final(ini)) == ini_contents(*old(ini)),
        },
{
    match ini.read(input) {
        Ok(_) => Ok(()),
        Err(e) => Err(e),
    }
}

/// `Ini::get`: with the default options, the value stored under the
/// lower-cased section and key, if any. (configparser lower-cases names with
/// `str::to_lowercase` unless they hold no upper-case ASCII letter and no
/// non-ASCII character, in which case they are used as they are; both come
/// to the same name.)
#[verifier::external_body]
fn ini_get(ini: &Ini, section: &str, key: &str) -> (res: Option<String>)
    ensures
        ini_default_options(*ini) ==> match res {
            Some(v) => lookup(
                ini_contents(*ini),
                if is_ascii_name(section@) { lower_ascii(section@) } else { str_to_lowercase(section@) },
                if is_ascii_name(key@) { lower_ascii(key@) } else { str_to_lowercase(key@) },
            ) == Some(v@),
            None => lookup(
                ini_contents(*ini),
                if is_ascii_name(section@) { lower_ascii(section@) } else { str_to_lowercase(section@) },
                if is_ascii_name(key@) { lower_ascii(key@) } else { str_to_lowercase(key@) },
            ) is None,
        },
{
    ini.get(section, key)
}

/// `Ini::getbool`: with the default options, `Ok(None)` when no value is
/// stored under the lower-cased section and key (as for `Ini::get`),
/// `Ok(Some(b))` when the value is `true` or `false` in any letter case, and
/// an error otherwise.
#[verifier::external_body]
fn ini_getbool(ini: &Ini, section: &str, key: &str) -> (res: Result<Option<bool>, String>)
    ensures
        ini_default_options(*ini) ==> match lookup(
            ini_contents(*ini),
            if is_ascii_name(section@) { lower_ascii(section@) } else { str_to_lowercase(section@) },
            if is_ascii_name(key@) { lower_ascii(key@) } else { str_to_lowercase(key@) },
        ) {
            None => res matches Ok(r) && r is None,
            Some(v) => match bool_word(v) {
                Some(b) => res matches Ok(r) && r == Some(b),
                None => res is Err,
            },
        },
{
    ini.getbool(section, key)
}

/// The settings of the imaging tool, as read from `Settings.ini`.
pub struct Settings {
    ini: Ini,
}

impl Settings {
    #[verifier::type_invariant]
    spec fn has_default_options(self) -> bool {
        ini_default_options(self.ini)
    }

    /// The sections, keys and values held.
    pub closed spec fn entries(&self) -> Map<Seq<char>, Map<Seq<char>, Option<Seq<char>>>> {
        ini_contents(self.ini)
    }

    /// The value stored under `section` and `key` (names compared without
    /// regard to letter case), if any.
    pub open spec fn value(&self, section: Seq<char>, key: Seq<char>) -> Option<Seq<char>> {
        entries_value(self.entries(), section, key)
    }

    /// Whether the value under `section` and `key` is on: `true` in any
    /// letter case, or `1`. Anything else, or no value, is off.
    pub open spec fn flag_value(&self, section: Seq<char>, key: Seq<char>) -> bool {
        entries_flag(self.entries(), section, key)
    }

    /// Settings with nothing set, as when `Settings.ini` is missing.
    pub fn empty() -> (s: Settings)
        ensures
            s.entries() == no_sections(),
    {
        Settings { ini: ini_new() }
    }

    /// Settings read from the text of `Settings.ini` (`None` when there is no
    /// such file). A text that does not parse leaves nothing set.
    pub fn load(text: Option<String>) -> (s: Settings)
        ensures
            s.entries() == match text {
                Some(t) => match ini_parse(t@) {
                    Some(m) => m,
                    None => no_sections(),
                },
                None => no_sections(),
            },
    {
        let mut ini = ini_new();
        match text {
            Some(t) => {
                let _ = ini_read(&mut ini, t);
            },
            None => {},
        }
        Settings { ini }
    }

    /// The value under `section` and `key`.
    pub fn get(&self, section: &str, key: &str) -> (res: Option<String>)
        ensures
            match res {
                Some(v) => self.value(section@, key@) == Some(v@),
                None => self.value(section@, key@) is None,
            },
    {
        proof {
            use_type_invariant(self);
        }
        ini_get(&self.ini, section, key)
    }

    /// Whether the value under `section` and `key` is on (`true` in any
    /// letter case, or `1`).
    pub fn flag(&self, section: &str, key: &str) -> (res: bool)
        ensures
            res == self.flag_value(section@, key@),
    {
        proof {
            use_type_invariant(self);
            reveal_strlit("1");
            reveal_strlit("false");
        }
        let answer = ini_getbool(&self.ini, section, key);
        match answer {
            Ok(Some(b)) => {
                proof {
                    {
                        let v = self.value(section@, key@)->0;
                        assert(self.value(section@, key@) is Some);
                        assert(bool_word(v) == Some(b));
                        if !b {
                            assert(lower_ascii(v).len() == 5);
                            assert(v.len() == 5);
                            assert(v != "1"@);
                        }
                    }
                }
                b
            },
            Ok(None) => false,
            Err(_) => match ini_get(&self.ini, section, key) {
                Some(v) => crate::text::same_text(v.as_str(), "1"),
                None => false,
            },
        }
    }
}

} // verus!
