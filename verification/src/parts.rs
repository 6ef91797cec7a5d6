//! Parts of a test specification: result messages and the configuration of random numbers.
use vstd::prelude::*;

verus! {

/// Messages shown with the result of a check or lint.
#[derive(Debug, PartialEq)]
pub struct CheckResultMessages {
    pub human_msg: Option<String>,
    pub tools_msg: Option<String>,
    pub help_url: Option<String>,
}

impl CheckResultMessages {
    pub fn new() -> (r: Self)
        ensures
            r.human_msg is None,
            r.tools_msg is None,
            r.help_url is None,
    {
        CheckResultMessages { human_msg: None, tools_msg: None, help_url: None }
    }

    pub fn human_msg(&self) -> (r: &Option<String>)
        ensures
            *r == self.human_msg,
    {
        &self.human_msg
    }

    pub fn tools_msg(&self) -> (r: &Option<String>)
        ensures
            *r == self.tools_msg,
    {
        &self.tools_msg
    }

    pub fn help_url(&self) -> (r: &Option<String>)
        ensures
            *r == self.help_url,
    {
        &self.help_url
    }

    pub fn with_human_msg(self, human_msg: Option<String>) -> (r: Self)
        ensures
            r == (CheckResultMessages { human_msg, ..self }),
    {
        CheckResultMessages { human_msg, ..self }
    }

    pub fn set_human_msg(&mut self, human_msg: Option<String>)
        ensures
            *final(self) == (CheckResultMessages { human_msg, ..*old(self) }),
    {
        self.human_msg = human_msg;
    }

    pub fn with_tools_msg(self, tools_msg: Option<String>) -> (r: Self)
        ensures
            r == (CheckResultMessages { tools_msg, ..self }),
    {
        CheckResultMessages { tools_msg, ..self }
    }

    pub fn set_tools_msg(&mut self, tools_msg: Option<String>)
        ensures
            *final(self) == (CheckResultMessages { tools_msg, ..*old(self) }),
    {
        self.tools_msg = tools_msg;
    }

    pub fn with_help_url(self, help_url: Option<String>) -> (r: Self)
        ensures
            r == (CheckResultMessages { help_url, ..self }),
    {
        CheckResultMessages { help_url, ..self }
    }

    pub fn set_help_url(&mut self, help_url: Option<String>)
        ensures
            *final(self) == (CheckResultMessages { help_url, ..*old(self) }),
    {
        self.help_url = help_url;
    }
}

impl Default for CheckResultMessages {
    fn default() -> (r: Self)
        ensures
            r.human_msg is None,
            r.tools_msg is None,
            r.help_url is None,
    {
        CheckResultMessages::new()
    }
}

/// Whether and how a program may draw random numbers.
#[derive(Debug, PartialEq)]
pub struct RandomsCfg {
    pub generate: RandomsGenerate,
}

#[derive(Debug, Clone, Copy, PartialEq, Eq, Structural)]
pub enum RandomsGenerate {
    /// no program is allowed to request random numbers, doing so will lead to
    /// termination and an error
    Deny,
    /// random numbers are generated based on an optional seed value,
    /// the same library version on the same target will produce the same sequence
    /// for the same seed but there are no further guarantees
    Allow { seed: Option<u64> },
}

impl RandomsCfg {
    pub fn new(generate: RandomsGenerate) -> (r: Self)
        ensures
            r.generate == generate,
    {
        RandomsCfg { generate }
    }

    pub fn generate(&self) -> (r: &RandomsGenerate)
        ensures
            *r == self.generate,
    {
        &self.generate
    }
}

} // verus!
