//! The start screen of the plotting front end: which database kind is chosen
//! and where output goes.
use vstd::prelude::*;
use crate::backend::DataSource;

verus! {

/// What the start screen reacts to.
#[derive(Clone, Debug)]
pub enum MessageHome {
    DataSourceSelected(DataSource),
    OutputPathSet(String),
    ButtonDatabasePathPressed,
}

/// The choices made on the start screen.
#[derive(Clone, Debug)]
pub struct HomeState {
    pub datasource: Option<DataSource>,
    pub output_selected: Option<String>,
}

/// What the start screen asks its caller to do after a message.
#[derive(Clone, Copy, Debug, PartialEq, Eq, Structural)]
pub enum HomeAction {
    Nothing,
    /// Ask the user for a database file, then connect to it.
    PickDatabaseFile,
}

impl HomeState {
    pub fn new() -> (r: HomeState)
        ensures
            r.datasource is None,
            r.output_selected is None,
    {
        HomeState { datasource: None, output_selected: None }
    }

    /// Applies a message: a chosen source or output path is recorded; the
    /// database button asks for a file.
    pub fn update(&mut self, message: MessageHome) -> (r: HomeAction)
        ensures
            match message {
                MessageHome::DataSourceSelected(s) => final(self).datasource == Some(s)
                    && final(self).output_selected == old(self).output_selected
                    && r == HomeAction::Nothing,
                MessageHome::OutputPathSet(p) => final(self).output_selected == Some(p)
                    && final(self).datasource == old(self).datasource && r == HomeAction::Nothing,
                MessageHome::ButtonDatabasePathPressed => *final(self) == *old(self) && r
                    == HomeAction::PickDatabaseFile,
            },
    {
        match message {
            MessageHome::DataSourceSelected(s) => {
                self.datasource = Some(s);
                HomeAction::Nothing
            },
            MessageHome::OutputPathSet(p) => {
                self.output_selected = Some(p);
                HomeAction::Nothing
            },
            MessageHome::ButtonDatabasePathPressed => HomeAction::PickDatabaseFile,
        }
    }

    /// Records the database file the user picked: the source follows from its
    /// extension (none for an unknown one).
    pub fn database_picked(&mut self, source: Option<DataSource>)
        ensures
            final(self).datasource == source,
            final(self).output_selected == old(self).output_selected,
    {
        self.datasource = source;
    }
}

} // verus!
