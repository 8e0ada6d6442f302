//! Permission claims: what the user has already allowed.

use vstd::prelude::*;
use crate::json::{json_text, json_to_string, JsonModel, JsonValue};

verus! {

/// How far a grant reaches.
#[derive(Debug, Clone, Copy, PartialEq, Eq, Structural)]
pub enum ClaimScope {
    /// The tool with exactly these parameters.
    Once,
    /// The tool, whatever its parameters.
    Always,
}

/// One grant. The fingerprint is the compact JSON text of the parameters
/// it was given for.
#[derive(Debug, PartialEq)]
pub struct Claim {
    pub tool_name: String,
    pub fingerprint: String,
    pub scope: ClaimScope,
}

pub ghost struct ClaimView {
    pub tool_name: Seq<char>,
    pub fingerprint: Seq<char>,
    pub scope: ClaimScope,
}

impl DeepView for Claim {
    type V = ClaimView;

    open spec fn deep_view(&self) -> ClaimView {
        ClaimView {
            tool_name: self.tool_name@,
            fingerprint: self.fingerprint@,
            scope: self.scope,
        }
    }
}

/// The grants recorded so far, and the sudo switch that overrides them.
#[derive(Debug, PartialEq)]
pub struct ClaimManager {
    claims: Vec<Claim>,
    sudo: bool,
}

pub ghost struct ClaimManagerView {
    pub claims: Seq<ClaimView>,
    pub sudo: bool,
}

impl ClaimView {
    /// Whether this grant covers the tool with these parameters.
    pub open spec fn covers(self, tool_name: Seq<char>, fingerprint: Seq<char>) -> bool {
        self.tool_name == tool_name && (self.scope == ClaimScope::Always || self.fingerprint
            == fingerprint)
    }
}

impl ClaimManagerView {
    /// Sudo is on, or some grant covers the tool with these parameters.
    pub open spec fn permits(self, tool_name: Seq<char>, parameters: JsonModel) -> bool {
        self.sudo || exists|i: int|
            0 <= i < self.claims.len() && (#[trigger] self.claims[i]).covers(
                tool_name,
                json_text(parameters),
            )
    }

    pub open spec fn with_sudo(self, sudo: bool) -> ClaimManagerView {
        ClaimManagerView { sudo, ..self }
    }

    pub open spec fn with_claim(
        self,
        tool_name: Seq<char>,
        parameters: JsonModel,
        scope: ClaimScope,
    ) -> ClaimManagerView {
        ClaimManagerView {
            claims: self.claims.push(
                ClaimView { tool_name, fingerprint: json_text(parameters), scope },
            ),
            ..self
        }
    }
}

impl DeepView for ClaimManager {
    type V = ClaimManagerView;

    closed spec fn deep_view(&self) -> ClaimManagerView {
        ClaimManagerView { claims: self.claims.deep_view(), sudo: self.sudo }
    }
}

impl Clone for ClaimManager {
    fn clone(&self) -> (r: Self)
        ensures
            r.deep_view() == self.deep_view(),
    {
        let mut claims: Vec<Claim> = Vec::new();
        let mut i: usize = 0;
        while i < self.claims.len()
            invariant
                i <= self.claims.len(),
                claims.len() == i,
                forall|j: int|
                    0 <= j < i ==> claims@[j].deep_view() == (#[trigger] self.claims@[j]).deep_view(),
            decreases self.claims.len() - i,
        {
            let c = &self.claims[i];
            claims.push(
                Claim {
                    tool_name: c.tool_name.clone(),
                    fingerprint: c.fingerprint.clone(),
                    scope: c.scope,
                },
            );
            i += 1;
        }
        assert(claims.deep_view() =~= self.claims.deep_view());
        ClaimManager { claims, sudo: self.sudo }
    }
}

impl ClaimManager {
    /// No grant, sudo off.
    pub fn new() -> (r: Self)
        ensures
            r.deep_view() == (ClaimManagerView { claims: Seq::empty(), sudo: false }),
    {
        let r = ClaimManager { claims: Vec::new(), sudo: false };
        assert(r.claims.deep_view() =~= Seq::empty());
        r
    }

    /// Turns sudo on: every call is permitted.
    pub fn sudo(&mut self)
        ensures
            final(self).deep_view() == old(self).deep_view().with_sudo(true),
    {
        self.sudo = true;
    }

    /// Turns sudo off: the grants decide again.
    pub fn no_sudo(&mut self)
        ensures
            final(self).deep_view() == old(self).deep_view().with_sudo(false),
    {
        self.sudo = false;
    }

    pub fn is_sudo(&self) -> (r: bool)
        ensures
            r == self.deep_view().sudo,
    {
        self.sudo
    }

    /// Whether the tool may run with these parameters without asking.
    pub fn is_permitted(&self, tool_name: &str, parameters: &JsonValue) -> (r: bool)
        ensures
            r == self.deep_view().permits(tool_name@, parameters.deep_view()),
    {
        if self.sudo {
            return true;
        }
        let fingerprint = json_to_string(parameters);
        let name = tool_name.to_owned();
        let ghost views = self.claims.deep_view();
        let mut i: usize = 0;
        while i < self.claims.len()
            invariant
                i <= self.claims.len(),
                views == self.claims.deep_view(),
                views.len() == self.claims.len(),
                name@ == tool_name@,
                fingerprint@ == json_text(parameters.deep_view()),
                forall|j: int| 0 <= j < i ==> !(#[trigger] views[j]).covers(name@, fingerprint@),
            decreases self.claims.len() - i,
        {
            let c = &self.claims[i];
            assert(views[i as int] == c.deep_view());
            if c.tool_name == name {
                let hit = match c.scope {
                    ClaimScope::Always => true,
                    ClaimScope::Once => c.fingerprint == fingerprint,
                };
                if hit {
                    assert(self.deep_view().claims[i as int].covers(
                        tool_name@,
                        json_text(parameters.deep_view()),
                    ));
                    return true;
                }
            }
            i += 1;
        }
        false
    }

    /// Records that the tool may run with exactly these parameters.
    pub fn grant_one(&mut self, tool_name: &str, parameters: &JsonValue)
        ensures
            final(self).deep_view() == old(self).deep_view().with_claim(
                tool_name@,
                parameters.deep_view(),
                ClaimScope::Once,
            ),
    {
        self.record(tool_name, parameters, ClaimScope::Once);
    }

    /// Records that the tool may run from now on, whatever its parameters.
    pub fn grant_always(&mut self, tool_name: &str, parameters: &JsonValue)
        ensures
            final(self).deep_view() == old(self).deep_view().with_claim(
                tool_name@,
                parameters.deep_view(),
                ClaimScope::Always,
            ),
    {
        self.record(tool_name, parameters, ClaimScope::Always);
    }

    fn record(&mut self, tool_name: &str, parameters: &JsonValue, scope: ClaimScope)
        ensures
            final(self).deep_view() == old(self).deep_view().with_claim(
                tool_name@,
                parameters.deep_view(),
                scope,
            ),
    {
        let claim = Claim {
            tool_name: tool_name.to_owned(),
            fingerprint: json_to_string(parameters),
            scope,
        };
        self.claims.push(claim);
        assert(self.claims.deep_view() =~= old(self).claims.deep_view().push(claim.deep_view()));
    }
}

} // verus!
