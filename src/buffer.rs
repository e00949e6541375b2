use vstd::prelude::*;
use crate::command::{BufferId, Command, CommandList, CommandView, Resource};

verus! {

/// Whether two byte strings are equal.
pub fn bytes_equal(a: &Vec<u8>, b: &Vec<u8>) -> (r: bool)
    ensures
        r == (a@ == b@),
{
    if a.len() != b.len() {
        return false;
    }
    let mut i: usize = 0;
    while i < a.len()
        invariant
            a@.len() == b@.len(),
            0 <= i <= a@.len(),
            forall|k: int| 0 <= k < i ==> a@[k] == b@[k],
        decreases a@.len() - i,
    {
        if a[i] != b[i] {
            return false;
        }
        i = i + 1;
    }
    assert(a@ =~= b@);
    true
}

/// A copy of a byte string.
pub fn copy_bytes(a: &Vec<u8>) -> (r: Vec<u8>)
    ensures
        r@ == a@,
{
    let mut r: Vec<u8> = Vec::new();
    let mut i: usize = 0;
    while i < a.len()
        invariant
            0 <= i <= a@.len(),
            r@ == a@.subrange(0, i as int),
        decreases a@.len() - i,
    {
        r.push(a[i]);
        i = i + 1;
        assert(r@ =~= a@.subrange(0, i as int));
    }
    assert(r@ =~= a@);
    r
}

/// A uniform buffer on the device together with the bytes last written to
/// it, so that writing the same record again costs no transfer.
pub struct UniformBuffer {
    buffer: BufferId,
    content: Vec<u8>,
}

impl UniformBuffer {
    pub closed spec fn buffer(&self) -> BufferId {
        self.buffer
    }

    /// The bytes the buffer holds, as far as this side has written them.
    pub closed spec fn content(&self) -> Seq<u8> {
        self.content@
    }

    /// What `update` records for the record `src`: one write, unless the
    /// buffer holds those bytes already.
    pub open spec fn write_cmds(&self, src: Seq<u8>) -> Seq<CommandView> {
        if self.content() == src {
            Seq::empty()
        } else {
            seq![CommandView::WriteBuffer { buffer: self.buffer(), bytes: src }]
        }
    }

    /// A buffer that nothing has been written to yet.
    pub fn new(buffer: BufferId) -> (r: UniformBuffer)
        ensures
            r.buffer() == buffer,
            r.content() == Seq::<u8>::empty(),
    {
        UniformBuffer { buffer, content: Vec::new() }
    }

    /// A buffer created holding `src`.
    pub fn new_with_data(buffer: BufferId, src: Vec<u8>) -> (r: UniformBuffer)
        ensures
            r.buffer() == buffer,
            r.content() == src@,
    {
        UniformBuffer { buffer, content: src }
    }

    /// Records a write of `src` into the buffer, unless it holds those bytes.
    pub fn update(&mut self, encoder: &mut CommandList, src: &Vec<u8>)
        ensures
            final(self).buffer() == old(self).buffer(),
            final(self).content() == src@,
            final(encoder)@ == old(encoder)@ + old(self).write_cmds(src@),
    {
        if bytes_equal(&self.content, src) {
            assert(encoder@ =~= old(encoder)@ + old(self).write_cmds(src@));
            return;
        }
        encoder.record(Command::WriteBuffer { buffer: self.buffer, bytes: copy_bytes(src) });
        self.content = copy_bytes(src);
        assert(encoder@ =~= old(encoder)@ + old(self).write_cmds(src@));
    }

    /// The buffer on the device.
    pub fn binding_buffer(&self) -> (r: BufferId)
        ensures
            r == self.buffer(),
    {
        self.buffer
    }

    /// The whole buffer, as a binding set.
    pub fn binding_resource(&self) -> (r: Resource)
        ensures
            r == Resource::Uniform(self.buffer()),
    {
        Resource::Uniform(self.buffer)
    }
}

} // verus!
