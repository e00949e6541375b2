use vstd::prelude::*;
use std::sync::Arc;
use std::ops::Range;
use crate::command::{
    BufferId, ColorAttachment, Command, CommandList, CommandView, PipelineId, Resource,
};

verus! {

/// Names assigned to consecutive slots, in the order they were first pushed.
pub struct NameTable {
    names: Vec<String>,
}

/// No name stands at two slots.
pub open spec fn names_unique(names: Seq<Seq<char>>) -> bool {
    forall|i: int, j: int|
        0 <= i < names.len() && 0 <= j < names.len() && names[i] == names[j] ==> i == j
}

impl View for NameTable {
    type V = Seq<Seq<char>>;

    closed spec fn view(&self) -> Seq<Seq<char>> {
        self.names@.map_values(|s: String| s@)
    }
}

impl NameTable {
    /// No name stands at two slots.
    #[verifier::type_invariant]
    pub open spec fn inv(&self) -> bool {
        names_unique(self@)
    }

    pub open spec fn has(&self, name: Seq<char>) -> bool {
        self@.contains(name)
    }

    /// The slot of a name that the table holds.
    pub open spec fn slot(&self, name: Seq<char>) -> int {
        choose|i: int| 0 <= i < self@.len() && self@[i] == name
    }

    pub fn new() -> (r: NameTable)
        ensures
            r@ == Seq::<Seq<char>>::empty(),
    {
        let r = NameTable { names: Vec::new() };
        assert(r@ =~= Seq::<Seq<char>>::empty());
        r
    }

    pub fn len(&self) -> (r: usize)
        ensures
            r == self@.len(),
    {
        self.names.len()
    }

    /// The slot at which `name` stands, if it does.
    pub fn index_of(&self, name: &str) -> (r: Option<usize>)
        ensures
            r is Some <==> self.has(name@),
            r matches Some(i) ==> i == self.slot(name@),
            self.has(name@) ==> 0 <= self.slot(name@) < self@.len() && self@[self.slot(name@)]
                == name@,
    {
        proof {
            use_type_invariant(self);
        }
        let key = name.to_owned();
        let mut i: usize = 0;
        while i < self.names.len()
            invariant
                0 <= i <= self.names@.len(),
                key@ == name@,
                names_unique(self@),
                forall|j: int| 0 <= j < i ==> self@[j] != name@,
            decreases self.names@.len() - i,
        {
            if self.names[i] == key {
                proof {
                    self.lemma_slot_at(i as int);
                }
                return Some(i);
            }
            i = i + 1;
        }
        proof {
            assert(!self.has(name@)) by {
                if self@.contains(name@) {
                    let k = choose|k: int| 0 <= k < self@.len() && self@[k] == name@;
                }
            }
        }
        None
    }

    proof fn lemma_slot_at(&self, i: int)
        requires
            names_unique(self@),
            0 <= i < self@.len(),
        ensures
            self.has(self@[i]),
            self.slot(self@[i]) == i,
    {
        let n = self@[i];
        assert(self@.contains(n));
        let k = self.slot(n);
        assert(0 <= k < self@.len() && self@[k] == n);
    }

    /// Whether the table holds exactly the names `expected`, slot by slot.
    pub fn is_exactly(&self, expected: &[&str]) -> (r: bool)
        ensures
            r == (self@ == expected@.map_values(|s: &str| s@)),
    {
        let ghost want = expected@.map_values(|s: &str| s@);
        if self.names.len() != expected.len() {
            assert(self@.len() != want.len());
            return false;
        }
        let mut i: usize = 0;
        while i < expected.len()
            invariant
                self.names@.len() == expected@.len(),
                want == expected@.map_values(|s: &str| s@),
                0 <= i <= expected@.len(),
                forall|k: int| 0 <= k < i ==> self@[k] == want[k],
            decreases expected@.len() - i,
        {
            if self.names[i] != expected[i].to_owned() {
                assert(self@[i as int] != want[i as int]);
                return false;
            }
            i = i + 1;
        }
        assert(self@ =~= want);
        true
    }

    /// Appends a name that the table does not hold yet.
    pub fn push(self, name: &str) -> (r: NameTable)
        requires
            !self.has(name@),
        ensures
            r@ == self@.push(name@),
    {
        proof {
            use_type_invariant(&self);
        }
        let ghost before = self@;
        let NameTable { names } = self;
        let mut names = names;
        names.push(name.to_owned());
        let ghost after = before.push(name@);
        assert(names@.map_values(|s: String| s@) =~= after);
        assert forall|i: int, j: int|
            0 <= i < after.len() && 0 <= j < after.len() && after[i] == after[j] implies i
            == j by {
            if i < before.len() && j == before.len() {
                assert(before[i] == name@);
                assert(before.contains(name@));
            }
            if j < before.len() && i == before.len() {
                assert(before[j] == name@);
                assert(before.contains(name@));
            }
        }
        let r = NameTable { names };
        assert(r@ =~= self@.push(name@));
        r
    }
}


/// Items kept at stable slots, addressed by name.
///
/// Pushing a new name appends its item at the next slot; pushing a name again
/// replaces the item at that name's slot and leaves every slot as it was.
pub struct NamedSlots<L> {
    names: NameTable,
    items: Vec<L>,
}

impl<L> NamedSlots<L> {
    /// Each name has its item, and no name stands at two slots.
    #[verifier::type_invariant]
    pub open spec fn inv(&self) -> bool {
        &&& self.names()@.len() == self.items().len()
        &&& names_unique(self.names()@)
    }

    pub closed spec fn names(&self) -> NameTable {
        self.names
    }

    pub closed spec fn items(&self) -> Seq<L> {
        self.items@
    }

    pub fn new() -> (r: NamedSlots<L>)
        ensures
            r.names()@ == Seq::<Seq<char>>::empty(),
            r.items() == Seq::<L>::empty(),
    {
        NamedSlots { names: NameTable::new(), items: Vec::new() }
    }

    /// Puts `item` at the slot of `name`: its old slot if it has one, else the next.
    pub fn push_named(self, name: &str, item: L) -> (r: Self)
        ensures
            self.names().has(name@) ==> {
                &&& r.names()@ == self.names()@
                &&& r.items() == self.items().update(self.names().slot(name@), item)
            },
            !self.names().has(name@) ==> {
                &&& r.names()@ == self.names()@.push(name@)
                &&& r.items() == self.items().push(item)
            },
    {
        proof {
            use_type_invariant(&self);
        }
        let NamedSlots { names, items } = self;
        let mut items = items;
        match names.index_of(name) {
            Some(i) => {
                items.set(i, item);
                NamedSlots { names, items }
            },
            None => {
                let names = names.push(name);
                items.push(item);
                NamedSlots { names, items }
            },
        }
    }

    /// The item at the slot of `name`, if the name has one.
    pub fn get(&self, name: &str) -> (r: Option<&L>)
        ensures
            r is Some <==> self.names().has(name@),
            r matches Some(item) ==> *item == self.items()[self.names().slot(name@)],
    {
        proof {
            use_type_invariant(self);
        }
        match self.names.index_of(name) {
            Some(i) => Some(&self.items[i]),
            None => None,
        }
    }

    /// The name table and the items, slot by slot.
    pub fn into_parts(self) -> (r: (NameTable, Vec<L>))
        ensures
            r.0 == self.names(),
            r.1@ == self.items(),
    {
        (self.names, self.items)
    }
}


/// The fragment stage of a pipeline: its shader, entry point and color outputs.
pub struct FragmentState<S, T> {
    pub color_target_states: Vec<T>,
    pub entry_point: String,
    pub shader: S,
}

pub struct FragmentStateBuilder<S, T> {
    color_target_states: Vec<T>,
    shader: S,
    entry_point: String,
}

impl<S, T> FragmentStateBuilder<S, T> {
    pub closed spec fn spec_color_target_states(&self) -> Seq<T> {
        self.color_target_states@
    }

    pub closed spec fn spec_shader(&self) -> S {
        self.shader
    }

    pub closed spec fn spec_entry_point(&self) -> Seq<char> {
        self.entry_point@
    }

    /// A builder with no color outputs and the entry point `fs_main`.
    pub fn new(shader: S) -> (r: Self)
        ensures
            r.spec_color_target_states() == Seq::<T>::empty(),
            r.spec_shader() == shader,
            r.spec_entry_point() == "fs_main"@,
    {
        FragmentStateBuilder {
            color_target_states: Vec::new(),
            shader,
            entry_point: "fs_main".to_owned(),
        }
    }

    pub fn set_entry_point(self, entry_point: &str) -> (r: Self)
        ensures
            r.spec_color_target_states() == self.spec_color_target_states(),
            r.spec_shader() == self.spec_shader(),
            r.spec_entry_point() == entry_point@,
    {
        FragmentStateBuilder {
            color_target_states: self.color_target_states,
            shader: self.shader,
            entry_point: entry_point.to_owned(),
        }
    }

    /// Adds one color output.
    pub fn push_color_target_state(self, state: T) -> (r: Self)
        ensures
            r.spec_color_target_states() == self.spec_color_target_states().push(state),
            r.spec_shader() == self.spec_shader(),
            r.spec_entry_point() == self.spec_entry_point(),
    {
        let mut color_target_states = self.color_target_states;
        color_target_states.push(state);
        FragmentStateBuilder { color_target_states, shader: self.shader, entry_point: self.entry_point }
    }

    pub fn build(self) -> (r: FragmentState<S, T>)
        ensures
            r.color_target_states@ == self.spec_color_target_states(),
            r.shader == self.spec_shader(),
            r.entry_point@ == self.spec_entry_point(),
    {
        FragmentState {
            color_target_states: self.color_target_states,
            entry_point: self.entry_point,
            shader: self.shader,
        }
    }
}

/// The vertex stage of a pipeline: its shader, entry point, and the layouts
/// of its vertex streams together with the names that address them.
pub struct VertexState<S, V> {
    pub vertex_buffer_layouts: Vec<V>,
    /// The slot of each vertex stream, by name.
    pub vertex_buffer_names: Arc<NameTable>,
    pub entry_point: String,
    pub vertex_shader: S,
}

pub struct VertexStateBuilder<S, V> {
    layouts: NamedSlots<V>,
    entry_point: String,
    vertex_shader: S,
}

impl<S, V> VertexStateBuilder<S, V> {
    pub closed spec fn spec_layouts(&self) -> NamedSlots<V> {
        self.layouts
    }

    pub closed spec fn spec_shader(&self) -> S {
        self.vertex_shader
    }

    pub closed spec fn spec_entry_point(&self) -> Seq<char> {
        self.entry_point@
    }

    /// A builder with no vertex streams and the entry point `vs_main`.
    pub fn new(vertex_shader: S) -> (r: Self)
        ensures
            r.spec_layouts().names()@ == Seq::<Seq<char>>::empty(),
            r.spec_layouts().items() == Seq::<V>::empty(),
            r.spec_shader() == vertex_shader,
            r.spec_entry_point() == "vs_main"@,
    {
        VertexStateBuilder {
            layouts: NamedSlots::new(),
            entry_point: "vs_main".to_owned(),
            vertex_shader,
        }
    }

    pub fn set_entry_point(self, entry_point: &str) -> (r: Self)
        ensures
            r.spec_layouts() == self.spec_layouts(),
            r.spec_shader() == self.spec_shader(),
            r.spec_entry_point() == entry_point@,
    {
        VertexStateBuilder {
            layouts: self.layouts,
            entry_point: entry_point.to_owned(),
            vertex_shader: self.vertex_shader,
        }
    }

    /// Adds the vertex stream `name`, or replaces the layout of the stream of
    /// that name at its slot.
    pub fn push_named(self, name: &str, vertex_buffer_layout: V) -> (r: Self)
        ensures
            r.spec_shader() == self.spec_shader(),
            r.spec_entry_point() == self.spec_entry_point(),
            self.spec_layouts().names().has(name@) ==> {
                &&& r.spec_layouts().names()@ == self.spec_layouts().names()@
                &&& r.spec_layouts().items() == self.spec_layouts().items().update(
                    self.spec_layouts().names().slot(name@),
                    vertex_buffer_layout,
                )
            },
            !self.spec_layouts().names().has(name@) ==> {
                &&& r.spec_layouts().names()@ == self.spec_layouts().names()@.push(name@)
                &&& r.spec_layouts().items() == self.spec_layouts().items().push(
                    vertex_buffer_layout,
                )
            },
    {
        let layouts = self.layouts.push_named(name, vertex_buffer_layout);
        VertexStateBuilder { layouts, entry_point: self.entry_point, vertex_shader: self.vertex_shader }
    }

    pub fn build(self) -> (r: VertexState<S, V>)
        ensures
            *r.vertex_buffer_names == self.spec_layouts().names(),
            r.vertex_buffer_layouts@ == self.spec_layouts().items(),
            r.entry_point@ == self.spec_entry_point(),
            r.vertex_shader == self.spec_shader(),
    {
        let (names, layouts) = self.layouts.into_parts();
        VertexState {
            vertex_buffer_layouts: layouts,
            vertex_buffer_names: Arc::new(names),
            entry_point: self.entry_point,
            vertex_shader: self.vertex_shader,
        }
    }
}

/// The binding-set layouts of a pipeline, slot by slot, with the names that
/// address them; the host turns the layouts into a device object.
pub struct PipelineLayout<L, C> {
    pub bind_group_layouts: Vec<L>,
    pub push_constant_ranges: Vec<C>,
    /// The slot of each binding set, by name.
    pub names: Arc<NameTable>,
}

pub struct PipelineLayoutBuilder<L, C> {
    bind_group_layouts: NamedSlots<L>,
    push_constant_ranges: Vec<C>,
}

impl<L, C> PipelineLayoutBuilder<L, C> {
    pub closed spec fn spec_layouts(&self) -> NamedSlots<L> {
        self.bind_group_layouts
    }

    pub closed spec fn spec_push_constant_ranges(&self) -> Seq<C> {
        self.push_constant_ranges@
    }

    /// A builder with no binding sets.
    pub fn new() -> (r: Self)
        ensures
            r.spec_layouts().names()@ == Seq::<Seq<char>>::empty(),
            r.spec_layouts().items() == Seq::<L>::empty(),
            r.spec_push_constant_ranges() == Seq::<C>::empty(),
    {
        PipelineLayoutBuilder { bind_group_layouts: NamedSlots::new(), push_constant_ranges: Vec::new() }
    }

    /// Adds the binding set `name`, or replaces the layout of the set of that
    /// name at its slot.
    pub fn push_named(self, name: &str, bind_group_layout: L) -> (r: Self)
        ensures
            r.spec_push_constant_ranges() == self.spec_push_constant_ranges(),
            self.spec_layouts().names().has(name@) ==> {
                &&& r.spec_layouts().names()@ == self.spec_layouts().names()@
                &&& r.spec_layouts().items() == self.spec_layouts().items().update(
                    self.spec_layouts().names().slot(name@),
                    bind_group_layout,
                )
            },
            !self.spec_layouts().names().has(name@) ==> {
                &&& r.spec_layouts().names()@ == self.spec_layouts().names()@.push(name@)
                &&& r.spec_layouts().items() == self.spec_layouts().items().push(
                    bind_group_layout,
                )
            },
    {
        let layouts = self.bind_group_layouts.push_named(name, bind_group_layout);
        PipelineLayoutBuilder { bind_group_layouts: layouts, push_constant_ranges: self.push_constant_ranges }
    }

    pub fn push_push_constant_ranges(self, push_constant_ranges: C) -> (r: Self)
        ensures
            r.spec_layouts() == self.spec_layouts(),
            r.spec_push_constant_ranges() == self.spec_push_constant_ranges().push(
                push_constant_ranges,
            ),
    {
        let mut ranges = self.push_constant_ranges;
        ranges.push(push_constant_ranges);
        PipelineLayoutBuilder { bind_group_layouts: self.bind_group_layouts, push_constant_ranges: ranges }
    }

    /// Freezes the name table and hands out the layouts slot by slot.
    pub fn create(self) -> (r: PipelineLayout<L, C>)
        ensures
            *r.names == self.spec_layouts().names(),
            r.bind_group_layouts@ == self.spec_layouts().items(),
            r.push_constant_ranges@ == self.spec_push_constant_ranges(),
    {
        let (names, layouts) = self.bind_group_layouts.into_parts();
        PipelineLayout {
            bind_group_layouts: layouts,
            push_constant_ranges: self.push_constant_ranges,
            names: Arc::new(names),
        }
    }
}

/// A name a pipeline does not hold, or a pipeline whose name tables are not
/// the ones its user is built for.
#[derive(Debug)]
pub enum PipelineError {
    /// No binding set of this name.
    BindingNotFound { name: String },
    /// No vertex stream of this name.
    StreamNotFound { name: String },
    /// The binding sets are not exactly the expected names in the expected slots.
    BindingsMismatch,
    /// The vertex streams are not exactly the expected names in the expected slots.
    StreamsMismatch,
}

/// A copy of a list of offsets.
fn copy_offsets(offsets: &[u32]) -> (r: Vec<u32>)
    ensures
        r@ == offsets@,
{
    let mut r: Vec<u32> = Vec::new();
    let mut i: usize = 0;
    while i < offsets.len()
        invariant
            0 <= i <= offsets@.len(),
            r@ == offsets@.subrange(0, i as int),
        decreases offsets@.len() - i,
    {
        r.push(offsets[i]);
        i = i + 1;
        assert(r@ =~= offsets@.subrange(0, i as int));
    }
    assert(r@ =~= offsets@);
    r
}

/// A compiled pipeline with the two frozen name tables that address its
/// binding sets and its vertex streams.
pub struct RenderPipeline {
    pub pipeline: PipelineId,
    pub bind_group_names: Arc<NameTable>,
    pub vertex_buffer_names: Arc<NameTable>,
}

impl RenderPipeline {
    pub open spec fn has_binding(&self, name: Seq<char>) -> bool {
        self.bind_group_names.has(name)
    }

    pub open spec fn has_stream(&self, name: Seq<char>) -> bool {
        self.vertex_buffer_names.has(name)
    }

    /// The command that binds `group` at the slot of the binding set `name`,
    /// with the dynamic offsets `offsets`.
    pub open spec fn bind_with_offsets_cmd(
        &self,
        name: Seq<char>,
        group: Resource,
        offsets: Seq<u32>,
    ) -> CommandView {
        CommandView::SetBindGroup { slot: self.bind_group_names.slot(name) as u32, group, offsets }
    }

    /// The command that binds `group` at the slot of the binding set `name`,
    /// with no dynamic offset.
    pub open spec fn bind_cmd(&self, name: Seq<char>, group: Resource) -> CommandView {
        self.bind_with_offsets_cmd(name, group, Seq::empty())
    }

    /// The command that sets `buffer` at the slot of the vertex stream `name`.
    pub open spec fn stream_cmd(&self, name: Seq<char>, buffer: BufferId) -> CommandView {
        CommandView::SetVertexBuffer { slot: self.vertex_buffer_names.slot(name) as u32, buffer }
    }
}

/// Collects the outputs of a render pass before it begins.
pub struct RenderPassBuilder {
    color_attachments: Vec<ColorAttachment>,
}

impl RenderPassBuilder {
    pub closed spec fn spec_attachments(&self) -> Seq<ColorAttachment> {
        self.color_attachments@
    }

    pub fn new() -> (r: Self)
        ensures
            r.spec_attachments() == Seq::<ColorAttachment>::empty(),
    {
        RenderPassBuilder { color_attachments: Vec::new() }
    }

    pub fn push_color_attachment(self, color_attachment: ColorAttachment) -> (r: Self)
        ensures
            r.spec_attachments() == self.spec_attachments().push(color_attachment),
    {
        let mut color_attachments = self.color_attachments;
        color_attachments.push(color_attachment);
        RenderPassBuilder { color_attachments }
    }

    /// Opens a pass over the collected outputs at the end of `encoder`.
    pub fn begin(self, encoder: CommandList) -> (r: RenderPass)
        ensures
            r@ == encoder@.push(CommandView::BeginPass { attachments: self.spec_attachments() }),
    {
        let mut list = encoder;
        list.record(Command::BeginPass { attachments: self.color_attachments });
        RenderPass { list }
    }
}

/// An open render pass; it owns the command list until it ends.
pub struct RenderPass {
    list: CommandList,
}

impl View for RenderPass {
    type V = Seq<CommandView>;

    closed spec fn view(&self) -> Seq<CommandView> {
        self.list@
    }
}

impl RenderPass {
    /// Binds `pipeline`; the returned scope addresses its inputs by name.
    pub fn set_pipeline<'p>(self, pipeline: &'p RenderPipeline) -> (r: RenderPassPipeline<'p>)
        ensures
            r@ == self@.push(CommandView::SetPipeline { pipeline: pipeline.pipeline }),
            r.pipeline() == *pipeline,
    {
        let mut list = self.list;
        list.record(Command::SetPipeline { pipeline: pipeline.pipeline });
        RenderPassPipeline { pass: RenderPass { list }, pipeline }
    }

    /// Closes the pass and hands the command list back.
    pub fn end(self) -> (r: CommandList)
        ensures
            r@ == self@.push(CommandView::EndPass),
    {
        let mut list = self.list;
        list.record(Command::EndPass);
        list
    }
}

/// An open render pass with a bound pipeline.
pub struct RenderPassPipeline<'p> {
    pass: RenderPass,
    pipeline: &'p RenderPipeline,
}

impl<'p> View for RenderPassPipeline<'p> {
    type V = Seq<CommandView>;

    closed spec fn view(&self) -> Seq<CommandView> {
        self.pass@
    }
}

impl<'p> RenderPassPipeline<'p> {
    pub closed spec fn pipeline(&self) -> RenderPipeline {
        *self.pipeline
    }

    /// Binds `bind_group`, with the dynamic offsets `offsets`, at the slot of
    /// the binding set `name`; a name the pipeline does not hold is reported
    /// and nothing is recorded.
    pub fn set_bind_group(&mut self, name: &str, bind_group: Resource, offsets: &[u32]) -> (r: Result<
        (),
        PipelineError,
    >)
        ensures
            final(self).pipeline() == old(self).pipeline(),
            old(self).pipeline().has_binding(name@) ==> {
                &&& r is Ok
                &&& final(self)@ == old(self)@.push(
                    old(self).pipeline().bind_with_offsets_cmd(name@, bind_group, offsets@),
                )
            },
            old(self).pipeline().has_binding(name@) && offsets@.len() == 0 ==> final(self)@
                == old(self)@.push(old(self).pipeline().bind_cmd(name@, bind_group)),
            !old(self).pipeline().has_binding(name@) ==> {
                &&& r matches Err(PipelineError::BindingNotFound { name: n }) && n@ == name@
                &&& final(self)@ == old(self)@
            },
    {
        assert(offsets@.len() == 0 ==> offsets@ =~= Seq::<u32>::empty());
        match self.pipeline.bind_group_names.index_of(name) {
            Some(i) => {
                self.pass.list.record(
                    Command::SetBindGroup { slot: i as u32, group: bind_group, offsets: copy_offsets(offsets) },
                );
                Ok(())
            },
            None => Err(PipelineError::BindingNotFound { name: name.to_owned() }),
        }
    }

    /// Binds `bind_groups[i]` at slot `i`, for each `i`.
    pub fn set_bind_groups(&mut self, bind_groups: &[Resource])
        ensures
            final(self).pipeline() == old(self).pipeline(),
            final(self)@ == old(self)@ + Seq::new(
                bind_groups@.len(),
                |i: int|
                    CommandView::SetBindGroup {
                        slot: i as u32,
                        group: bind_groups@[i],
                        offsets: Seq::empty(),
                    },
            ),
    {
        let mut i: usize = 0;
        while i < bind_groups.len()
            invariant
                0 <= i <= bind_groups@.len(),
                self.pipeline() == old(self).pipeline(),
                self@ == old(self)@ + Seq::new(
                    i as nat,
                    |k: int|
                        CommandView::SetBindGroup {
                            slot: k as u32,
                            group: bind_groups@[k],
                            offsets: Seq::empty(),
                        },
                ),
            decreases bind_groups@.len() - i,
        {
            self.pass.list.record(
                Command::SetBindGroup { slot: i as u32, group: bind_groups[i], offsets: Vec::new() },
            );
            i = i + 1;
            assert(self@ =~= old(self)@ + Seq::new(
                i as nat,
                |k: int|
                    CommandView::SetBindGroup {
                        slot: k as u32,
                        group: bind_groups@[k],
                        offsets: Seq::empty(),
                    },
            ));
        }
    }

    /// Sets `buffer` at the slot of the vertex stream `name`; a name the
    /// pipeline does not hold is reported and nothing is recorded.
    pub fn set_vertex_buffer(&mut self, name: &str, buffer: BufferId) -> (r: Result<(), PipelineError>)
        ensures
            final(self).pipeline() == old(self).pipeline(),
            old(self).pipeline().has_stream(name@) ==> {
                &&& r is Ok
                &&& final(self)@ == old(self)@.push(old(self).pipeline().stream_cmd(name@, buffer))
            },
            !old(self).pipeline().has_stream(name@) ==> {
                &&& r matches Err(PipelineError::StreamNotFound { name: n }) && n@ == name@
                &&& final(self)@ == old(self)@
            },
    {
        match self.pipeline.vertex_buffer_names.index_of(name) {
            Some(i) => {
                self.pass.list.record(Command::SetVertexBuffer { slot: i as u32, buffer });
                Ok(())
            },
            None => Err(PipelineError::StreamNotFound { name: name.to_owned() }),
        }
    }

    pub fn set_index_buffer(&mut self, buffer: BufferId)
        ensures
            final(self).pipeline() == old(self).pipeline(),
            final(self)@ == old(self)@.push(CommandView::SetIndexBuffer { buffer }),
    {
        self.pass.list.record(Command::SetIndexBuffer { buffer });
    }

    pub fn draw(&mut self, vertices: Range<u32>, instances: Range<u32>)
        ensures
            final(self).pipeline() == old(self).pipeline(),
            final(self)@ == old(self)@.push(
                CommandView::Draw {
                    vertices: (vertices.start, vertices.end),
                    instances: (instances.start, instances.end),
                },
            ),
    {
        self.pass.list.record(
            Command::Draw {
                vertices: (vertices.start, vertices.end),
                instances: (instances.start, instances.end),
            },
        );
    }

    pub fn draw_indexed(&mut self, indices: Range<u32>, base_vertex: i32, instances: Range<u32>)
        ensures
            final(self).pipeline() == old(self).pipeline(),
            final(self)@ == old(self)@.push(
                CommandView::DrawIndexed {
                    indices: (indices.start, indices.end),
                    base_vertex,
                    instances: (instances.start, instances.end),
                },
            ),
    {
        self.pass.list.record(
            Command::DrawIndexed {
                indices: (indices.start, indices.end),
                base_vertex,
                instances: (instances.start, instances.end),
            },
        );
    }

    /// Binds another pipeline in the same pass.
    pub fn set_pipeline<'q>(self, pipeline: &'q RenderPipeline) -> (r: RenderPassPipeline<'q>)
        ensures
            r@ == self@.push(CommandView::SetPipeline { pipeline: pipeline.pipeline }),
            r.pipeline() == *pipeline,
    {
        self.pass.set_pipeline(pipeline)
    }

    /// Leaves the pipeline scope; the pass stays open.
    pub fn finish(self) -> (r: RenderPass)
        ensures
            r@ == self@,
    {
        self.pass
    }
}

/// The language a shader source is written in.
#[derive(Clone, Copy, PartialEq, Eq, Structural, Debug)]
pub enum ShaderLanguage {
    Glsl,
    Wgsl,
}

#[derive(Debug)]
pub enum ShaderError {
    /// The source file's name has no extension.
    NoExtension,
    /// The extension names no language the engine compiles.
    UnknownExtension { extension: String },
}

/// The language of a shader source file, told by the extension of its name:
/// `glsl` or `wgsl`.
pub fn shader_language(extension: Option<&str>) -> (r: Result<ShaderLanguage, ShaderError>)
    ensures
        match extension {
            None => r matches Err(ShaderError::NoExtension),
            Some(ext) => if ext@ == "glsl"@ {
                r == Ok::<ShaderLanguage, ShaderError>(ShaderLanguage::Glsl)
            } else if ext@ == "wgsl"@ {
                r == Ok::<ShaderLanguage, ShaderError>(ShaderLanguage::Wgsl)
            } else {
                r matches Err(ShaderError::UnknownExtension { extension }) && extension@ == ext@
            },
        },
{
    match extension {
        None => Err(ShaderError::NoExtension),
        Some(ext) => {
            let ext = ext.to_owned();
            if ext == "glsl".to_owned() {
                Ok(ShaderLanguage::Glsl)
            } else if ext == "wgsl".to_owned() {
                Ok(ShaderLanguage::Wgsl)
            } else {
                Err(ShaderError::UnknownExtension { extension: ext })
            }
        },
    }
}

} // verus!
