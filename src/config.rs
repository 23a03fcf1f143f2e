use vstd::prelude::*;

verus! {

/// The colour scheme of the surrounding application.
#[derive(Debug, Clone, Copy, PartialEq, Eq)]
pub enum Theme {
    Default,
    Light,
    Dark,
    Hotdog,
}

} // verus!

verus! {

/// The settings that the surrounding application keeps between runs.
#[derive(Debug, Clone)]
pub struct Config {
    theme: Theme,
    place_id: String,
    universe_id: String,
    version_number: String,
}

/// What a configuration holds, as plain values.
pub ghost struct ConfigView {
    pub theme: Theme,
    pub place_id: Seq<char>,
    pub universe_id: Seq<char>,
    pub version_number: Seq<char>,
}

impl View for Config {
    type V = ConfigView;

    closed spec fn view(&self) -> ConfigView {
        ConfigView {
            theme: self.theme,
            place_id: self.place_id@,
            universe_id: self.universe_id@,
            version_number: self.version_number@,
        }
    }
}

impl Config {
    pub fn new(theme: Theme, place_id: String, universe_id: String, version_number: String) -> (r:
        Config)
        ensures
            r@.theme == theme,
            r@.place_id == place_id@,
            r@.universe_id == universe_id@,
            r@.version_number == version_number@,
    {
        Config { theme, place_id, universe_id, version_number }
    }

    pub fn theme(&self) -> (r: Theme)
        ensures
            r == self@.theme,
    {
        self.theme
    }

    pub fn place_id(&self) -> (r: &String)
        ensures
            r@ == self@.place_id,
    {
        &self.place_id
    }

    pub fn universe_id(&self) -> (r: &String)
        ensures
            r@ == self@.universe_id,
    {
        &self.universe_id
    }

    pub fn version_number(&self) -> (r: &String)
        ensures
            r@ == self@.version_number,
    {
        &self.version_number
    }

    /// Replaces each setting that is given and keeps each one that is not.
    pub fn update(
        &mut self,
        theme: Option<Theme>,
        place_id: Option<String>,
        universe_id: Option<String>,
        version_number: Option<String>,
    )
        ensures
            final(self)@.theme == (match theme {
                Some(t) => t,
                None => old(self)@.theme,
            }),
            final(self)@.place_id == (match place_id {
                Some(p) => p@,
                None => old(self)@.place_id,
            }),
            final(self)@.universe_id == (match universe_id {
                Some(u) => u@,
                None => old(self)@.universe_id,
            }),
            final(self)@.version_number == (match version_number {
                Some(v) => v@,
                None => old(self)@.version_number,
            }),
    {
        if let Some(t) = theme {
            self.theme = t;
        }
        if let Some(p) = place_id {
            self.place_id = p;
        }
        if let Some(u) = universe_id {
            self.universe_id = u;
        }
        if let Some(v) = version_number {
            self.version_number = v;
        }
    }
}

impl Default for Config {
    /// The default theme and no place, universe or version chosen.
    fn default() -> (r: Config)
        ensures
            r@.theme == Theme::Default,
            r@.place_id == Seq::<char>::empty(),
            r@.universe_id == Seq::<char>::empty(),
            r@.version_number == Seq::<char>::empty(),
    {
        Config {
            theme: Theme::Default,
            place_id: String::new(),
            universe_id: String::new(),
            version_number: String::new(),
        }
    }
}

} // verus!
