//! A claim: who owns a chunk and whom the owner trusts.

use vstd::prelude::*;

verus! {

/// What a claim is, mathematically: the owner's name and the set of
/// trusted names.
pub struct ClaimView {
    pub owner: Seq<char>,
    pub members: Set<Seq<char>>,
}

impl ClaimView {
    /// The claim as it is when `owner` has just made it: the owner is the
    /// only member.
    pub open spec fn founded_by(owner: Seq<char>) -> ClaimView {
        ClaimView { owner, members: set![owner] }
    }

    /// Whether `name` may act on the claimed land. The owner always may,
    /// whether or not the member set lists them.
    pub open spec fn admits(self, name: Seq<char>) -> bool {
        name == self.owner || self.members.contains(name)
    }
}

/// The ownership record of one chunk.
#[derive(Clone, Debug, PartialEq, Eq)]
pub struct Claim {
    owner: String,
    members: Vec<String>,
}

impl View for Claim {
    type V = ClaimView;

    closed spec fn view(&self) -> ClaimView {
        ClaimView {
            owner: self.owner@,
            members: Set::new(
                |name: Seq<char>|
                    exists|i: int|
                        0 <= i < self.members@.len() && (#[trigger] self.members@[i])@ == name,
            ),
        }
    }
}

impl Claim {
    /// A fresh claim by `owner`, with the owner as its only member.
    pub fn new(owner: &str) -> (claim: Self)
        ensures
            claim@ == ClaimView::founded_by(owner@),
    {
        let mut members: Vec<String> = Vec::new();
        members.push(owner.to_owned());
        let claim = Claim { owner: owner.to_owned(), members };
        proof {
            assert(claim.members@[0]@ == owner@);
            assert(claim@.members =~= set![owner@]);
        }
        claim
    }

    /// The owner's name.
    pub fn owner(&self) -> (name: &str)
        ensures
            name@ == self@.owner,
    {
        self.owner.as_str()
    }

    /// The trusted names.
    pub fn members(&self) -> (names: &Vec<String>)
        ensures
            forall|name: Seq<char>|
                self@.members.contains(name) <==> exists|i: int|
                    0 <= i < names@.len() && (#[trigger] names@[i])@ == name,
    {
        &self.members
    }

    /// Whether `name` is the owner.
    pub fn is_owner(&self, name: &str) -> (yes: bool)
        ensures
            yes == (name@ == self@.owner),
    {
        let wanted: String = name.to_owned();
        self.owner == wanted
    }

    /// Whether the member set lists `name`.
    pub fn is_member(&self, name: &str) -> (yes: bool)
        ensures
            yes == self@.members.contains(name@),
    {
        let wanted: String = name.to_owned();
        let mut i: usize = 0;
        while i < self.members.len()
            invariant
                i <= self.members@.len(),
                wanted@ == name@,
                forall|j: int| 0 <= j < i ==> (#[trigger] self.members@[j])@ != name@,
            decreases self.members@.len() - i,
        {
            if self.members[i] == wanted {
                return true;
            }
            i += 1;
        }
        false
    }

    /// Whether `name` may act on the claimed land: the owner and every
    /// member may.
    pub fn admits(&self, name: &str) -> (yes: bool)
        ensures
            yes == self@.admits(name@),
    {
        self.is_owner(name) || self.is_member(name)
    }
}

} // verus!
