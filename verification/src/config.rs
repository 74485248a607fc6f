//! Saved form configurations: the list of saved names and the rules for a name.
use vstd::prelude::*;
use crate::text::{all_white_space, contains_char, is_blank, owned, push_str, str_eq};

verus! {

/// The saved configurations of one tab and which of them is loaded.
#[derive(Debug)]
pub struct ConfigList {
    pub items: Vec<String>,
    pub selected: Option<String>,
    pub loaded: bool,
}

impl Default for ConfigList {
    fn default() -> (c: Self)
        ensures
            c.items@ == Seq::<String>::empty(),
            c.selected is None,
            !c.loaded,
    {
        ConfigList { items: Vec::new(), selected: None, loaded: false }
    }
}

impl ConfigList {
    /// A list of saved names with nothing selected.
    pub fn with_list(items: Vec<String>) -> (c: ConfigList)
        ensures
            c.items@ == items@,
            c.selected is None,
            !c.loaded,
    {
        ConfigList { items, selected: None, loaded: false }
    }

    /// Saving is allowed unless another saved config already has this name; a config
    /// that was loaded first may be saved over.
    pub open spec fn spec_can_save(&self, name: Seq<char>) -> bool {
        self.loaded || !names_of(self.items@).contains(name)
    }

    /// Overwrite guard of the save button.
    pub fn can_save(&self, name: &str) -> (b: bool)
        ensures
            b == self.spec_can_save(name@),
    {
        if self.loaded {
            return true;
        }
        let ghost names = names_of(self.items@);
        let mut i: usize = 0;
        while i < self.items.len()
            invariant
                i <= self.items@.len(),
                names == names_of(self.items@),
                !self.loaded,
                forall|k: int| 0 <= k < i ==> names[k] != name@,
            decreases self.items@.len() - i,
        {
            if str_eq(self.items[i].as_str(), name) {
                assert(names[i as int] == name@);
                assert(names.contains(name@));
                return false;
            }
            i = i + 1;
        }
        assert(!names.contains(name@));
        true
    }
}

/// The texts of a list of strings.
pub open spec fn names_of(items: Seq<String>) -> Seq<Seq<char>> {
    items.map_values(|i: String| i@)
}

/// What the user does with the config bar of a tab.
#[derive(Debug, Clone)]
pub enum ConfigMessage {
    Save,
    New,
    NameChanged(String),
    ConfigSelected(String),
}

/// Something with a name under which it is saved.
pub trait Named {
    spec fn name_view(&self) -> Seq<char>;

    fn name(&self) -> (n: &str)
        ensures
            n@ == self.name_view(),
    ;

    fn set_name(&mut self, name: String)
        ensures
            final(self).name_view() == name@,
    ;
}

/// A config name is valid when it is not blank, holds no path separator and is not
/// `.` or `..`: it names exactly one plain file in the config folder.
pub open spec fn config_name_ok(name: Seq<char>) -> bool {
    &&& !all_white_space(name)
    &&& !name.contains('/')
    &&& !name.contains('\\')
    &&& name != "."@
    &&& name != ".."@
}

/// The message for a config name that is not valid.
pub open spec fn config_name_error(name: Seq<char>) -> Seq<char> {
    if all_white_space(name) {
        "Config name must not be empty."@
    } else {
        "Invalid config name '"@ + name + "': use a single name without path separators."@
    }
}

/// check for valid path name
pub fn validate_config_name(name: &str) -> (r: Result<(), String>)
    ensures
        r is Ok <==> config_name_ok(name@),
        r matches Err(e) ==> e@ == config_name_error(name@),
{
    if is_blank(name) {
        return Err(owned("Config name must not be empty."));
    }
    if contains_char(name, '/') || contains_char(name, '\\') || str_eq(name, ".") || str_eq(
        name,
        "..",
    ) {
        let mut e = owned("Invalid config name '");
        push_str(&mut e, name);
        push_str(&mut e, "': use a single name without path separators.");
        return Err(e);
    }
    Ok(())
}

/// The file name a config is saved under: the name followed by `.json`.
pub fn config_file_name(name: &str) -> (f: String)
    ensures
        f@ == name@ + ".json"@,
{
    let mut f = owned(name);
    push_str(&mut f, ".json");
    f
}

} // verus!
