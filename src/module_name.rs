use vstd::prelude::*;

verus! {

/// A lower-case ASCII letter.
pub open spec fn is_lower(c: char) -> bool {
    'a' <= c && c <= 'z'
}

/// Lower-case letters, with single hyphens allowed between two letters.
pub open spec fn is_module_name(s: Seq<char>) -> bool {
    &&& s.len() > 0
    &&& is_lower(s[0])
    &&& is_lower(s.last())
    &&& forall|i: int| 0 <= i < s.len() ==> is_lower(#[trigger] s[i]) || s[i] == '-'
    &&& forall|i: int| 0 <= i < s.len() - 1 && #[trigger] s[i] == '-' ==> is_lower(s[i + 1])
}

/// Why a text was refused as a module name.
#[derive(Clone, Copy, Debug, PartialEq, Eq, Structural)]
pub enum ModuleNameError {
    /// The text is not lower-case letters joined by single hyphens.
    InvalidModuleName,
}

/// A validated module name.
#[derive(Clone, Debug, Hash, PartialEq, Eq, PartialOrd, Ord)]
pub struct ModuleName(String);

impl View for ModuleName {
    type V = Seq<char>;

    closed spec fn view(&self) -> Seq<char> {
        self.0@
    }
}

impl ModuleName {
    /// Accepts `name` exactly when it is lower-case letters with single
    /// hyphens between them.
    pub fn new(name: &str) -> (r: Result<ModuleName, ModuleNameError>)
        ensures
            is_module_name(name@) <==> r is Ok,
            r matches Ok(m) ==> m@ == name@,
            !is_module_name(name@) ==> r == Err::<ModuleName, ModuleNameError>(
                ModuleNameError::InvalidModuleName,
            ),
    {
        if check_module_name(name) {
            Ok(ModuleName(String::from_str(name)))
        } else {
            Err(ModuleNameError::InvalidModuleName)
        }
    }

    /// The name as text.
    pub fn as_str(&self) -> (r: &str)
        ensures
            r@ == self@,
    {
        self.0.as_str()
    }
}

impl core::str::FromStr for ModuleName {
    type Err = ModuleNameError;

    fn from_str(name: &str) -> Result<ModuleName, ModuleNameError> {
        ModuleName::new(name)
    }
}

/// Decides `is_module_name` in one pass over the characters.
fn check_module_name(name: &str) -> (r: bool)
    ensures
        r == is_module_name(name@),
{
    let len = name.unicode_len();
    if len == 0 {
        return false;
    }
    let mut prev_hyphen = true;
    let mut i: usize = 0;
    while i < len
        invariant
            len == name@.len(),
            0 < len,
            i <= len,
            i > 0 ==> prev_hyphen == (name@[i - 1] == '-'),
            i == 0 ==> prev_hyphen,
            forall|k: int| 0 <= k < i ==> is_lower(#[trigger] name@[k]) || name@[k] == '-',
            forall|k: int| 0 <= k < i - 1 && #[trigger] name@[k] == '-' ==> is_lower(name@[k + 1]),
            i > 0 ==> is_lower(name@[0]),
        decreases len - i,
    {
        let c = name.get_char(i);
        if 'a' <= c && c <= 'z' {
            prev_hyphen = false;
        } else if c == '-' && !prev_hyphen {
            prev_hyphen = true;
        } else {
            assert(!is_module_name(name@)) by {
                if i == 0 {
                } else {
                    assert(name@[i - 1] == '-' || !(is_lower(c) || c == '-'));
                }
            }
            return false;
        }
        i = i + 1;
    }
    if prev_hyphen {
        assert(!is_lower(name@.last()));
        return false;
    }
    true
}

/// A module name together with a release version.
#[derive(Debug)]
pub struct ModuleID {
    pub name: ModuleName,
    pub version: semver::Version,
}

impl ModuleID {
    pub fn new(name: ModuleName, version: semver::Version) -> (r: Self)
        ensures
            r.name == name,
            r.version == version,
    {
        ModuleID { name, version }
    }
}

/// Declares `semver::Version` so that it can be carried in a field.
#[verifier::external_type_specification]
#[verifier::external_body]
pub struct ExVersion(semver::Version);

} // verus!
