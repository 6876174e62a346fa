use vstd::prelude::*;

use crate::client::TestClient;
use crate::document::{
    doc_documents, doc_i32s, doc_keys, doc_strings, insert_document, insert_i32, insert_str,
    new_document,
};
use crate::outcome::{failure_of, CommandOutcome, FixtureError};

verus! {

/// When an installed fail point fires.
#[derive(Clone, Copy, Debug, PartialEq, Eq, Structural)]
pub enum FailPointMode {
    AlwaysOn,
    /// For the next so many matching commands.
    Times(i32),
    Off,
}

/// A fail point to install: its name, when it fires, and what it does then.
#[derive(Clone, Debug)]
pub struct FailPoint {
    pub name: String,
    pub mode: FailPointMode,
    /// The behaviour to inject, as the server reads it.
    pub data: bson::Document,
}

/// Text of a mode given as a string; `Times` is given as a document.
pub open spec fn mode_text(m: FailPointMode) -> Seq<char> {
    match m {
        FailPointMode::AlwaysOn => "alwaysOn"@,
        FailPointMode::Off => "off"@,
        FailPointMode::Times(_) => Seq::empty(),
    }
}

/// `d` is the document `{ configureFailPoint: name, mode: .., data: .. }` of `fp`.
pub open spec fn configures(d: bson::Document, fp: FailPoint) -> bool {
    &&& doc_keys(d) == seq!["configureFailPoint"@, "mode"@, "data"@]
    &&& doc_strings(d).contains_key("configureFailPoint"@)
    &&& doc_strings(d)["configureFailPoint"@] == fp.name@
    &&& doc_documents(d).contains_key("data"@)
    &&& doc_documents(d)["data"@] == fp.data
    &&& match fp.mode {
        FailPointMode::Times(n) => doc_documents(d).contains_key("mode"@) && doc_keys(
            doc_documents(d)["mode"@],
        ) == seq!["times"@] && doc_i32s(doc_documents(d)["mode"@]).contains_key("times"@)
            && doc_i32s(doc_documents(d)["mode"@])["times"@] == n,
        _ => doc_strings(d).contains_key("mode"@) && doc_strings(d)["mode"@] == mode_text(
            fp.mode,
        ),
    }
}

proof fn lemma_fail_point_keys_distinct()
    ensures
        "configureFailPoint"@.len() > 0 && "configureFailPoint"@[0] == 'c',
        "mode"@.len() > 0 && "mode"@[0] == 'm',
        "data"@.len() > 0 && "data"@[0] == 'd',
{
    reveal_strlit("configureFailPoint");
    reveal_strlit("mode");
    reveal_strlit("data");
}

impl FailPoint {
    /// The command that installs the fail point.
    pub fn to_document(&self) -> (r: bson::Document)
        ensures
            configures(r, *self),
    {
        proof {
            lemma_fail_point_keys_distinct();
        }
        let mut d = new_document();
        insert_str(&mut d, "configureFailPoint", self.name.as_str());
        assert(doc_keys(d) =~= seq!["configureFailPoint"@]);
        assert(doc_keys(d)[0] != "mode"@);
        match self.mode {
            FailPointMode::AlwaysOn => insert_str(&mut d, "mode", "alwaysOn"),
            FailPointMode::Off => insert_str(&mut d, "mode", "off"),
            FailPointMode::Times(n) => {
                let mut m = new_document();
                insert_i32(&mut m, "times", n);
                assert(doc_keys(m) =~= seq!["times"@]);
                insert_document(&mut d, "mode", m);
            },
        }
        assert(doc_keys(d) =~= seq!["configureFailPoint"@, "mode"@]);
        assert(doc_keys(d)[0] != "data"@ && doc_keys(d)[1] != "data"@);
        assert("data"@ != "configureFailPoint"@ && "data"@ != "mode"@);
        insert_document(&mut d, "data", self.data.clone());
        assert(doc_keys(d) =~= seq!["configureFailPoint"@, "mode"@, "data"@]);
        d
    }
}

/// The command that turns off the fail point `name`.
#[derive(Clone, Debug)]
pub struct FailPointOff {
    pub name: String,
}

impl FailPointOff {
    /// The command as a document: the fail point's name, and mode `off`.
    pub fn to_document(&self) -> (r: bson::Document)
        ensures
            doc_keys(r) == seq!["configureFailPoint"@, "mode"@],
            doc_strings(r) == Map::empty().insert("configureFailPoint"@, self.name@).insert(
                "mode"@,
                "off"@,
            ),
    {
        proof {
            reveal_strlit("configureFailPoint");
            reveal_strlit("mode");
        }
        let mut d = new_document();
        insert_str(&mut d, "configureFailPoint", self.name.as_str());
        assert(doc_keys(d) =~= seq!["configureFailPoint"@]);
        assert(doc_keys(d)[0].len() != "mode"@.len());
        insert_str(&mut d, "mode", "off");
        assert(doc_keys(d) =~= seq!["configureFailPoint"@, "mode"@]);
        d
    }
}

/// A fail point installed on the server. It is armed from a successful
/// install until its first release, and never armed again.
#[derive(Debug)]
pub struct FailPointGuard {
    name: String,
    armed: bool,
}

impl FailPointGuard {
    pub closed spec fn spec_name(&self) -> Seq<char> {
        self.name@
    }

    pub closed spec fn spec_armed(&self) -> bool {
        self.armed
    }

    /// The guard for fail point `name`, whose install command ended with
    /// `outcome`: armed where it succeeded, else the failure.
    pub fn install(name: String, outcome: CommandOutcome) -> (r: Result<FailPointGuard, FixtureError>)
        ensures
            r is Ok <==> outcome == CommandOutcome::Succeeded,
            r matches Ok(g) ==> g.spec_armed() && g.spec_name() == name@,
            r is Err ==> r->Err_0 == failure_of(outcome),
    {
        match outcome {
            CommandOutcome::Succeeded => Ok(FailPointGuard { name, armed: true }),
            CommandOutcome::CommandFailed(c) => Err(FixtureError::CommandFailed(c)),
            CommandOutcome::OtherFailure => Err(FixtureError::OtherFailure),
        }
    }

    pub fn name(&self) -> (r: &str)
        ensures
            r@ == self.spec_name(),
    {
        self.name.as_str()
    }

    pub fn is_armed(&self) -> (r: bool)
        ensures
            r == self.spec_armed(),
    {
        self.armed
    }

    /// Disarms the guard. The turn-off command to send is returned by the
    /// first release only.
    pub fn release(&mut self) -> (r: Option<FailPointOff>)
        ensures
            release_step(*old(self), *final(self), r),
    {
        if self.armed {
            self.armed = false;
            Some(FailPointOff { name: self.name.clone() })
        } else {
            None
        }
    }
}

impl TestClient {
    /// The guard of `fp`, whose install command (`fp.to_document()`) ended
    /// with `outcome`. Callers check `supports_fail_command` first.
    pub fn enable_failpoint(&self, fp: &FailPoint, outcome: CommandOutcome) -> (r: Result<
        FailPointGuard,
        FixtureError,
    >)
        ensures
            r is Ok <==> outcome == CommandOutcome::Succeeded,
            r matches Ok(g) ==> g.spec_armed() && g.spec_name() == fp.name@,
            r is Err ==> r->Err_0 == failure_of(outcome),
    {
        FailPointGuard::install(fp.name.clone(), outcome)
    }
}

/// One release of `before` gives `after` and sends `sent`.
pub open spec fn release_step(
    before: FailPointGuard,
    after: FailPointGuard,
    sent: Option<FailPointOff>,
) -> bool {
    &&& sent is Some <==> before.spec_armed()
    &&& sent matches Some(c) ==> c.name@ == before.spec_name()
    &&& !after.spec_armed()
    &&& after.spec_name() == before.spec_name()
}

/// Releasing a guard twice sends one turn-off command if it was armed, none
/// otherwise: the second release sends nothing.
pub proof fn lemma_release_twice(
    g0: FailPointGuard,
    g1: FailPointGuard,
    g2: FailPointGuard,
    s1: Option<FailPointOff>,
    s2: Option<FailPointOff>,
)
    requires
        release_step(g0, g1, s1),
        release_step(g1, g2, s2),
    ensures
        s1 is Some <==> g0.spec_armed(),
        s2 is None,
        !g2.spec_armed(),
{
}

} // verus!
