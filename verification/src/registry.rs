//! The tool registry: from tool name to offered wire-format schema.
//!
//! A registry is built afresh for one chat invocation. It decides which
//! names may be dispatched; the runnable implementations stay with the
//! caller, keyed by the same names.

use vstd::prelude::*;
use crate::schema::ToolImpl;
use crate::schema::ToolV;

verus! {

/// Whether some tool of the list carries the given name.
pub open spec fn has_tool(tools: Seq<ToolV>, name: Seq<char>) -> bool {
    exists|i: int| 0 <= i < tools.len() && tools[i].name == name
}

/// The per-invocation mapping from tool name to offered schema, with
/// pairwise distinct names.
pub struct ToolRegistry {
    tools: Vec<ToolImpl>,
}

impl View for ToolRegistry {
    type V = Seq<ToolV>;

    closed spec fn view(&self) -> Seq<ToolV> {
        self.tools.deep_view()
    }
}

impl ToolRegistry {
    /// Tool names are unique within the registry.
    #[verifier::type_invariant]
    spec fn inv(self) -> bool {
        forall|i: int, j: int|
            0 <= i < j < self.tools.deep_view().len() ==> self.tools.deep_view()[i].name
                != self.tools.deep_view()[j].name
    }

    /// An empty registry.
    pub fn new() -> (r: ToolRegistry)
        ensures
            r@ == Seq::<ToolV>::empty(),
    {
        let r = ToolRegistry { tools: Vec::new() };
        proof {
            assert(r@ =~= Seq::<ToolV>::empty());
        }
        r
    }

    /// How many tools are registered.
    pub fn len(&self) -> (n: usize)
        ensures
            n == self@.len(),
    {
        self.tools.len()
    }

    /// Registers one tool under its key. A second tool of an already
    /// registered name is refused, which keeps names unique.
    pub fn add(&mut self, tool: ToolImpl) -> (added: bool)
        ensures
            added == !has_tool(old(self)@, tool@.name),
            added ==> final(self)@ == old(self)@.push(tool@),
            !added ==> final(self)@ == old(self)@,
    {
        proof {
            use_type_invariant(&*self);
        }
        let present = match self.find(tool.key()) {
            Option::Some(_) => true,
            Option::None => false,
        };
        if present {
            return false;
        }
        let ghost before = self.tools.deep_view();
        let mut tools: Vec<ToolImpl> = Vec::new();
        std::mem::swap(&mut tools, &mut self.tools);
        tools.push(tool);
        proof {
            assert(tools.deep_view() =~= before.push(tool@));
        }
        std::mem::swap(&mut tools, &mut self.tools);
        true
    }

    /// Where the named tool stands in the registry, if anywhere.
    pub fn find(&self, name: &String) -> (r: Option<usize>)
        ensures
            match r {
                Option::Some(i) => i < self@.len() && self@[i as int].name == name@,
                Option::None => !has_tool(self@, name@),
            },
    {
        let mut i: usize = 0;
        while i < self.tools.len()
            invariant
                i <= self.tools.len(),
                forall|k: int| 0 <= k < i ==> (#[trigger] self.tools@[k])@.name != name@,
            decreases self.tools.len() - i,
        {
            if *self.tools[i].key() == *name {
                proof {
                    assert(self@[i as int] == self.tools@[i as int]@);
                }
                return Option::Some(i);
            }
            i = i + 1;
        }
        proof {
            assert forall|k: int| 0 <= k < self@.len() implies self@[k].name != name@ by {
                assert(self@[k] == self.tools@[k]@);
            }
        }
        Option::None
    }

    /// The schema of the tool standing at the given place.
    pub fn schema_at(&self, i: usize) -> (r: ToolImpl)
        requires
            i < self@.len(),
        ensures
            r@ == self@[i as int],
    {
        self.tools[i].duplicate()
    }

    /// The full catalog of registered schemas, in registration order, as
    /// the request builder offers it on the wire.
    pub fn schemas(&self) -> (r: Vec<ToolImpl>)
        ensures
            r.deep_view() == self@,
    {
        let mut out: Vec<ToolImpl> = Vec::new();
        let mut i: usize = 0;
        while i < self.tools.len()
            invariant
                i <= self.tools.len(),
                out@.len() == i,
                forall|k: int| 0 <= k < i ==> (#[trigger] out@[k])@ == self.tools@[k]@,
            decreases self.tools.len() - i,
        {
            out.push(self.tools[i].duplicate());
            i = i + 1;
        }
        proof {
            assert forall|k: int| 0 <= k < self@.len() implies out.deep_view()[k] == self@[k] by {
                assert(out@[k]@ == self.tools@[k]@);
            }
            assert(out.deep_view() =~= self@);
        }
        out
    }
}

} // verus!
