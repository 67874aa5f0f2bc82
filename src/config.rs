use vstd::prelude::*;
use vstd::string::StringExecFns;

verus! {

/// One value of a configuration section, as far as the library reads it.
#[derive(Debug, PartialEq, Eq)]
pub enum ConfigValue {
    /// A string.
    Text(String),
    /// A non-negative whole number.
    Unsigned(u64),
    /// Any other value (a negative or fractional number, a boolean, null,
    /// a list or a nested object).
    Other,
}

/// A flat key/value section of the configuration, such as `db` or `api`.
#[derive(Debug)]
pub struct ConfigSection {
    pub entries: Vec<(String, ConfigValue)>,
}

/// The whole configuration: named sections.
#[derive(Debug)]
pub struct Config {
    pub sections: Vec<(String, ConfigSection)>,
}

/// The value stored under `key`: that of the first entry with that key.
pub open spec fn entry_lookup<V>(entries: Seq<(String, V)>, key: Seq<char>) -> Option<V>
    decreases entries.len(),
{
    if entries.len() == 0 {
        None
    } else if entries[0].0@ == key {
        Some(entries[0].1)
    } else {
        entry_lookup(entries.drop_first(), key)
    }
}

/// The string stored under `key`, if the value there is a string.
pub open spec fn text_entry(entries: Seq<(String, ConfigValue)>, key: Seq<char>) -> Option<
    Seq<char>,
> {
    match entry_lookup(entries, key) {
        Some(ConfigValue::Text(s)) => Some(s@),
        _ => None,
    }
}

/// The entries of the section called `name`; none where it is absent.
pub open spec fn section_entries(sections: Seq<(String, ConfigSection)>, name: Seq<char>) -> Seq<
    (String, ConfigValue),
> {
    match entry_lookup(sections, name) {
        Some(s) => s.entries@,
        None => Seq::empty(),
    }
}

/// Finds the value of the first entry whose key is `key`.
pub fn find_entry<'a, V>(entries: &'a Vec<(String, V)>, key: &str) -> (r: Option<&'a V>)
    ensures
        r matches Some(v) ==> entry_lookup(entries@, key@) == Some(*v),
        r is None ==> entry_lookup(entries@, key@) is None,
{
    let wanted = String::from_str(key);
    let mut i: usize = 0;
    assert(entries@.skip(0) =~= entries@);
    while i < entries.len()
        invariant
            i <= entries.len(),
            wanted@ == key@,
            entry_lookup(entries@, key@) == entry_lookup(entries@.skip(i as int), key@),
        decreases entries.len() - i,
    {
        assert(entries@.skip(i as int).drop_first() =~= entries@.skip(i as int + 1));
        if entries[i].0 == wanted {
            return Some(&entries[i].1);
        }
        i = i + 1;
    }
    None
}

impl ConfigSection {
    /// A section without entries.
    pub fn new() -> (r: ConfigSection)
        ensures
            r.entries@.len() == 0,
    {
        ConfigSection { entries: Vec::new() }
    }

    /// Appends an entry.
    pub fn insert(&mut self, key: &str, value: ConfigValue)
        ensures
            final(self).entries@.len() == old(self).entries@.len() + 1,
            final(self).entries@.drop_last() == old(self).entries@,
            final(self).entries@.last().0@ == key@,
            final(self).entries@.last().1 == value,
    {
        self.entries.push((String::from_str(key), value));
        assert(self.entries@.drop_last() =~= old(self).entries@);
    }

    /// The value stored under `key`.
    pub fn get(&self, key: &str) -> (r: Option<&ConfigValue>)
        ensures
            r matches Some(v) ==> entry_lookup(self.entries@, key@) == Some(*v),
            r is None ==> entry_lookup(self.entries@, key@) is None,
    {
        find_entry(&self.entries, key)
    }

    /// The string stored under `key`, if the value there is a string.
    pub fn get_text(&self, key: &str) -> (r: Option<String>)
        ensures
            match r {
                Some(s) => text_entry(self.entries@, key@) == Some(s@),
                None => text_entry(self.entries@, key@) is None,
            },
    {
        match self.get(key) {
            Some(ConfigValue::Text(s)) => Some(s.clone()),
            _ => None,
        }
    }
}

impl Config {
    /// A configuration without sections.
    pub fn new() -> (r: Config)
        ensures
            r.sections@.len() == 0,
    {
        Config { sections: Vec::new() }
    }

    /// Appends a section.
    pub fn insert(&mut self, name: &str, section: ConfigSection)
        ensures
            final(self).sections@.len() == old(self).sections@.len() + 1,
            final(self).sections@.drop_last() == old(self).sections@,
            final(self).sections@.last().0@ == name@,
            final(self).sections@.last().1 == section,
    {
        self.sections.push((String::from_str(name), section));
        assert(self.sections@.drop_last() =~= old(self).sections@);
    }

    /// The section called `name`.
    pub fn get(&self, name: &str) -> (r: Option<&ConfigSection>)
        ensures
            r matches Some(s) ==> entry_lookup(self.sections@, name@) == Some(*s),
            r is None ==> entry_lookup(self.sections@, name@) is None,
    {
        find_entry(&self.sections, name)
    }

    /// The string stored under `key` in the section called `name`.
    pub fn section_text(&self, name: &str, key: &str) -> (r: Option<String>)
        ensures
            match r {
                Some(s) => text_entry(section_entries(self.sections@, name@), key@) == Some(s@),
                None => text_entry(section_entries(self.sections@, name@), key@) is None,
            },
    {
        match self.get(name) {
            Some(section) => section.get_text(key),
            None => None,
        }
    }
}

} // verus!
