//! What the Pi child of a run offers.
use vstd::prelude::*;

use crate::rpc::{CommandSummary, ModelSummary, ThinkingLevel};
use crate::text::sat_add_u64;

verus! {

/// Models, thinking levels and commands, each once Pi has reported it.
#[derive(Debug, PartialEq, Eq)]
pub struct RunCapabilities {
    revision: u64,
    models: Option<Vec<ModelSummary>>,
    thinking_levels: Option<Vec<ThinkingLevel>>,
    commands: Option<Vec<CommandSummary>>,
}

/// Model of [`RunCapabilities`].
pub struct RunCapabilitiesView {
    pub revision: u64,
    pub models: Option<Seq<ModelSummary>>,
    pub thinking_levels: Option<Seq<ThinkingLevel>>,
    pub commands: Option<Seq<CommandSummary>>,
}

impl RunCapabilitiesView {
    pub open spec fn unknown() -> Self {
        RunCapabilitiesView { revision: 0, models: None, thinking_levels: None, commands: None }
    }
}

impl View for RunCapabilities {
    type V = RunCapabilitiesView;

    closed spec fn view(&self) -> RunCapabilitiesView {
        RunCapabilitiesView {
            revision: self.revision,
            models: match self.models {
                Some(models) => Some(models@),
                None => None,
            },
            thinking_levels: match self.thinking_levels {
                Some(levels) => Some(levels@),
                None => None,
            },
            commands: match self.commands {
                Some(commands) => Some(commands@),
                None => None,
            },
        }
    }
}

impl Default for RunCapabilities {
    fn default() -> (r: Self)
        ensures
            r@ == RunCapabilitiesView::unknown(),
    {
        RunCapabilities { revision: 0, models: None, thinking_levels: None, commands: None }
    }
}

impl Clone for RunCapabilities {
    fn clone(&self) -> (r: Self)
        ensures
            r@ == self@,
    {
        let models = match &self.models {
            Some(models) => {
                let copy = models.clone();
                assert(copy@ =~= models@);
                Some(copy)
            },
            None => None,
        };
        let thinking_levels = match &self.thinking_levels {
            Some(levels) => {
                let copy = levels.clone();
                assert(copy@ =~= levels@);
                Some(copy)
            },
            None => None,
        };
        let commands = match &self.commands {
            Some(commands) => {
                let copy = commands.clone();
                assert(copy@ =~= commands@);
                Some(copy)
            },
            None => None,
        };
        RunCapabilities { revision: self.revision, models, thinking_levels, commands }
    }
}

impl RunCapabilities {
    pub fn revision(&self) -> (r: u64)
        ensures
            r == self@.revision,
    {
        self.revision
    }

    pub fn models(&self) -> (r: Option<&[ModelSummary]>)
        ensures
            match r {
                Some(models) => self@.models == Some(models@),
                None => self@.models is None,
            },
    {
        match &self.models {
            Some(models) => Some(models.as_slice()),
            None => None,
        }
    }

    pub fn thinking_levels(&self) -> (r: Option<&[ThinkingLevel]>)
        ensures
            match r {
                Some(levels) => self@.thinking_levels == Some(levels@),
                None => self@.thinking_levels is None,
            },
    {
        match &self.thinking_levels {
            Some(levels) => Some(levels.as_slice()),
            None => None,
        }
    }

    pub fn commands(&self) -> (r: Option<&[CommandSummary]>)
        ensures
            match r {
                Some(commands) => self@.commands == Some(commands@),
                None => self@.commands is None,
            },
    {
        match &self.commands {
            Some(commands) => Some(commands.as_slice()),
            None => None,
        }
    }

    pub fn replace_models(&mut self, models: Vec<ModelSummary>)
        ensures
            final(self)@ == (RunCapabilitiesView {
                models: Some(models@),
                revision: sat_add_u64(old(self)@.revision, 1),
                ..old(self)@
            }),
    {
        self.models = Some(models);
        self.revision = self.revision.saturating_add(1);
    }

    pub fn replace_thinking_levels(&mut self, levels: Vec<ThinkingLevel>)
        ensures
            final(self)@ == (RunCapabilitiesView {
                thinking_levels: Some(levels@),
                revision: sat_add_u64(old(self)@.revision, 1),
                ..old(self)@
            }),
    {
        self.thinking_levels = Some(levels);
        self.revision = self.revision.saturating_add(1);
    }

    pub fn replace_commands(&mut self, commands: Vec<CommandSummary>)
        ensures
            final(self)@ == (RunCapabilitiesView {
                commands: Some(commands@),
                revision: sat_add_u64(old(self)@.revision, 1),
                ..old(self)@
            }),
    {
        self.commands = Some(commands);
        self.revision = self.revision.saturating_add(1);
    }
}

} // verus!
