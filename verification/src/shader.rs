//! Shader handles and entry points.
//!
//! A shader is compiled by the device; here it is a handle whose identity is
//! the number assigned when its creation was planned.  Pipeline keys compare
//! entry points by shader identity plus entry-point name: two distinct
//! compiled modules are never the same shader, even for identical source.

use crate::commands::{CreateAction, CreateActionView};
use crate::context::{context_unchanged, Context};
use vstd::prelude::*;

verus! {

/// A handle to a compiled shader module.
#[derive(Clone, Copy, Debug)]
pub struct Shader {
    pub(crate) id: u64,
}

impl Shader {
    /// Create a new shader, planning the compilation of the given source.
    /// Two shaders compiled from identical source are still distinct
    /// shaders: entry points compare by shader identity.
    pub fn new(label: Option<&str>, source: &str, context: &mut Context) -> (r: Shader)
        requires
            old(context).wf(),
        ensures
            final(context).wf(),
            context_unchanged(*old(context), *final(context)),
            r.spec_id() == old(context).spec_next_id(),
            final(context).spec_next_id() >= old(context).spec_next_id(),
            final(context).spec_actions() == old(context).spec_actions().push(
                CreateActionView::Shader {
                    id: r.spec_id(),
                    label: match label {
                        Some(l) => Some(l@),
                        None => None,
                    },
                    source: source@,
                },
            ),
    {
        let id = context.alloc_id();
        let label_owned: Option<String> = match label {
            Some(l) => Some(l.to_owned()),
            None => None,
        };
        context.push_action(
            CreateAction::Shader { id, label: label_owned, source: source.to_owned() },
        );
        Shader { id }
    }

    /// The planned object this handle refers to.
    pub closed spec fn spec_id(&self) -> u64 {
        self.id
    }

    /// The planned object this handle refers to.
    pub fn id(&self) -> (r: u64)
        ensures
            r == self.spec_id(),
    {
        self.id
    }

    /// Associate the shader with a specific entry point (named main function).
    pub fn entry_point(&self, entry_point: &str) -> (r: EntryPoint)
        ensures
            r@ == (EntryPointView { shader: self.spec_id(), entry_point: entry_point@ }),
    {
        EntryPoint { shader: self.id, entry_point: entry_point.to_owned() }
    }
}

/// The identity of an entry point: which compiled module, and which function
/// within it.
pub ghost struct EntryPointView {
    pub shader: u64,
    pub entry_point: Seq<char>,
}

/// A handle to a compiled shader together with a specific main function.
#[derive(Clone, Debug)]
pub struct EntryPoint {
    pub shader: u64,
    pub entry_point: String,
}

impl View for EntryPoint {
    type V = EntryPointView;

    open spec fn view(&self) -> EntryPointView {
        EntryPointView { shader: self.shader, entry_point: self.entry_point@ }
    }
}

impl PartialEq for EntryPoint {
    fn eq(&self, other: &Self) -> (r: bool) {
        self.shader == other.shader && self.entry_point == other.entry_point
    }
}

impl vstd::std_specs::cmp::PartialEqSpecImpl for EntryPoint {
    open spec fn obeys_eq_spec() -> bool {
        true
    }

    open spec fn eq_spec(&self, other: &Self) -> bool {
        self@ == other@
    }
}

impl EntryPoint {
    /// An identical handle to the same shader and function.
    pub fn duplicate(&self) -> (r: Self)
        ensures
            r@ == self@,
    {
        EntryPoint { shader: self.shader, entry_point: self.entry_point.clone() }
    }
}

} // verus!
