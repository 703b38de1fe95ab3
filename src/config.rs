use vstd::prelude::*;

verus! {

/// One of the two sender identities a letter can be written from.
#[derive(Debug, Clone, Copy, PartialEq, Eq, Structural)]
pub enum Profile {
    Private,
    Work,
}

/// A sender identity; every field is optional and an absent field is left out of the letter.
#[derive(Debug)]
pub struct Sender {
    pub name: Option<String>,
    pub address: Option<String>,
    pub extra: Option<String>,
    pub location: Option<String>,
}

/// The two sender identities of the configuration.
#[derive(Debug)]
pub struct SenderProfiles {
    pub private: Option<Sender>,
    pub work: Option<Sender>,
}

/// The user's configuration: sender identities, a default location and a default language.
#[derive(Debug)]
pub struct Defaults {
    pub sender: Option<SenderProfiles>,
    pub location: Option<String>,
    pub lang: Option<String>,
}

/// The value of an optional string, as a sequence of characters.
pub open spec fn opt_view(o: Option<String>) -> Option<Seq<char>> {
    match o {
        Some(s) => Some(s@),
        None => None,
    }
}

/// The identity configured for `profile`, if any.
pub open spec fn sender_of(d: Defaults, profile: Profile) -> Option<Sender> {
    match d.sender {
        Some(p) => match profile {
            Profile::Private => p.private,
            Profile::Work => p.work,
        },
        None => None,
    }
}

/// The location used when neither the identity nor the configuration names one.
pub open spec fn fallback_location() -> Seq<char> {
    "Zürich"@
}

/// The language used when the configuration names none.
pub open spec fn fallback_lang() -> Seq<char> {
    "de"@
}

/// Location of a letter: the identity's own, else the configuration's, else the fallback.
pub open spec fn location_of(d: Defaults, profile: Profile) -> Seq<char> {
    match sender_of(d, profile) {
        Some(s) if s.location is Some => s.location->0@,
        _ => match d.location {
            Some(l) => l@,
            None => fallback_location(),
        },
    }
}

/// Language of a letter: the configuration's, else the fallback.
pub open spec fn lang_of(d: Defaults) -> Seq<char> {
    match d.lang {
        Some(l) => l@,
        None => fallback_lang(),
    }
}

/// The name signed under a letter: the identity's name, or nothing.
pub open spec fn signature_of(s: Option<Sender>) -> Seq<char> {
    match s {
        Some(s) if s.name is Some => s.name->0@,
        _ => Seq::empty(),
    }
}

fn clone_opt(o: &Option<String>) -> (r: Option<String>)
    ensures
        r == *o,
{
    match o {
        Some(s) => Some(s.clone()),
        None => None,
    }
}

impl Sender {
    /// A copy of this identity, field for field.
    pub fn copy(&self) -> (r: Sender)
        ensures
            r == *self,
    {
        Sender {
            name: clone_opt(&self.name),
            address: clone_opt(&self.address),
            extra: clone_opt(&self.extra),
            location: clone_opt(&self.location),
        }
    }
}

impl Profile {
    /// The profile's name as shown to the user.
    pub fn label(&self) -> (r: &'static str)
        ensures
            r@ == profile_label(*self),
    {
        match self {
            Profile::Private => "private",
            Profile::Work => "work",
        }
    }
}

/// The name of a profile as shown to the user.
pub open spec fn profile_label(p: Profile) -> Seq<char> {
    match p {
        Profile::Private => "private"@,
        Profile::Work => "work"@,
    }
}

impl Defaults {
    /// The configuration with nothing set, used when none can be read.
    pub fn empty() -> (r: Defaults)
        ensures
            r.sender is None,
            r.location is None,
            r.lang is None,
    {
        Defaults { sender: None, location: None, lang: None }
    }

    /// The parsed configuration, or the empty one when reading or parsing failed.
    pub fn or_empty(parsed: Option<Defaults>) -> (r: Defaults)
        ensures
            parsed is Some ==> r == parsed->0,
            parsed is None ==> r == Defaults::empty_spec(),
    {
        match parsed {
            Some(d) => d,
            None => Defaults::empty(),
        }
    }

    pub open spec fn empty_spec() -> Defaults {
        Defaults { sender: None, location: None, lang: None }
    }
}

/// The identity configured for `profile`, if the configuration has one.
pub fn get_sender(defaults: &Defaults, profile: Profile) -> (r: Option<Sender>)
    ensures
        r == sender_of(*defaults, profile),
{
    match &defaults.sender {
        Some(p) => {
            let chosen = match profile {
                Profile::Private => &p.private,
                Profile::Work => &p.work,
            };
            match chosen {
                Some(s) => Some(s.copy()),
                None => None,
            }
        },
        None => None,
    }
}

/// The effective language of a letter.
pub fn resolve_lang(defaults: &Defaults) -> (r: String)
    ensures
        r@ == lang_of(*defaults),
{
    match &defaults.lang {
        Some(l) => l.clone(),
        None => String::from_str("de"),
    }
}

/// The effective location of a letter written from `profile`.
pub fn resolve_location(defaults: &Defaults, profile: Profile) -> (r: String)
    ensures
        r@ == location_of(*defaults, profile),
{
    let sender = get_sender(defaults, profile);
    if let Some(s) = &sender {
        if let Some(l) = &s.location {
            return l.clone();
        }
    }
    match &defaults.location {
        Some(l) => l.clone(),
        None => String::from_str("Zürich"),
    }
}

/// The name signed under a letter written as `sender`.
pub fn signature_name(sender: &Option<Sender>) -> (r: String)
    ensures
        r@ == signature_of(*sender),
{
    if let Some(s) = sender {
        if let Some(n) = &s.name {
            return n.clone();
        }
    }
    String::new()
}


/// The identity's own location for `profile`, if it has one.
pub open spec fn own_location(d: Defaults, profile: Profile) -> Option<Seq<char>> {
    match sender_of(d, profile) {
        Some(s) => opt_view(s.location),
        None => None,
    }
}

/// The location of a letter is the identity's own when it has one; otherwise the
/// configuration's when it has one; otherwise the fallback location.
pub proof fn lemma_location_precedence(d: Defaults, profile: Profile)
    ensures
        own_location(d, profile) is Some ==> location_of(d, profile) == own_location(d, profile)->0,
        own_location(d, profile) is None && d.location is Some ==> location_of(d, profile)
            == d.location->0@,
        own_location(d, profile) is None && d.location is None ==> location_of(d, profile)
            == "Zürich"@,
{
}

} // verus!
