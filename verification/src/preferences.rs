//! The user's preferences and profile, as plain data.

use vstd::prelude::*;

verus! {

/// What the user chose to be called and to look like. Nothing is set by
/// default.
#[derive(Debug, PartialEq, Eq)]
pub struct Preferences {
    pub name: Option<String>,
    pub profile_picture: Option<String>,
    pub theme: Option<String>,
}

impl Default for Preferences {
    fn default() -> (preferences: Self)
        ensures
            preferences.name is None,
            preferences.profile_picture is None,
            preferences.theme is None,
    {
        Preferences { name: None, profile_picture: None, theme: None }
    }
}

/// Where the preferences are kept.
#[derive(Debug, PartialEq, Eq)]
pub struct PreferencesState {
    preferences_path: String,
}

impl PreferencesState {
    /// The location of the preferences file.
    pub closed spec fn location(&self) -> Seq<char> {
        self.preferences_path@
    }

    /// Preferences kept at `preferences_path`.
    pub fn at(preferences_path: String) -> (state: Self)
        ensures
            state.location() == preferences_path@,
    {
        PreferencesState { preferences_path }
    }

    /// The location of the preferences file.
    pub fn path(&self) -> (path: &str)
        ensures
            path@ == self.location(),
    {
        self.preferences_path.as_str()
    }
}

impl Default for PreferencesState {
    fn default() -> (state: Self)
        ensures
            state.location() == Seq::<char>::empty(),
    {
        PreferencesState { preferences_path: String::new() }
    }
}

/// The user's name and avatar. Both are empty by default.
#[derive(Debug, PartialEq, Eq)]
pub struct ProfileSettings {
    name: String,
    avatar: String,
}

impl ProfileSettings {
    /// The user's name.
    pub closed spec fn spec_name(&self) -> Seq<char> {
        self.name@
    }

    /// The user's avatar, as a reference to an image.
    pub closed spec fn spec_avatar(&self) -> Seq<char> {
        self.avatar@
    }

    /// A profile with the given name and avatar.
    pub fn new(name: String, avatar: String) -> (profile: Self)
        ensures
            profile.spec_name() == name@,
            profile.spec_avatar() == avatar@,
    {
        ProfileSettings { name, avatar }
    }

    /// The user's name.
    pub fn name(&self) -> (name: &str)
        ensures
            name@ == self.spec_name(),
    {
        self.name.as_str()
    }

    /// The user's avatar.
    pub fn avatar(&self) -> (avatar: &str)
        ensures
            avatar@ == self.spec_avatar(),
    {
        self.avatar.as_str()
    }
}

impl Default for ProfileSettings {
    fn default() -> (profile: Self)
        ensures
            profile.spec_name() == Seq::<char>::empty(),
            profile.spec_avatar() == Seq::<char>::empty(),
    {
        ProfileSettings { name: String::new(), avatar: String::new() }
    }
}

/// The media type of a profile picture, going by the extension of its file:
/// PNG for `png`, and JPEG for every other extension and for none.
pub open spec fn picture_mime(extension: Option<Seq<char>>) -> Seq<char> {
    match extension {
        Some(ext) if ext == "png"@ => "image/png"@,
        _ => "image/jpeg"@,
    }
}

/// The media type of a profile picture, going by the extension of its file.
pub fn picture_mime_type(extension: Option<&str>) -> (mime: &'static str)
    ensures
        mime@ == picture_mime(
            match extension {
                Some(ext) => Some(ext@),
                None => None,
            },
        ),
{
    match extension {
        Some(ext) => {
            if ext.eq("png") {
                "image/png"
            } else {
                "image/jpeg"
            }
        },
        None => "image/jpeg",
    }
}

} // verus!
