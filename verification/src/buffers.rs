//! Typed GPU buffer slots.
//!
//! Each slot owns the model of one GPU buffer: the bytes last uploaded, the
//! usage flags it was allocated with, and the binding descriptors built for
//! it. Allocation happens once, at construction, and fixes the buffer's
//! size; updates rewrite bytes in place and may never exceed that size.
//! The unverified front end mirrors each slot onto a real device buffer.

use vstd::prelude::*;

use crate::codec::u32_le;
use crate::renderer::Context;

verus! {

/// A host value with a fixed GPU byte layout: `to_data` is its pure
/// conversion to the bytes the GPU reads, and every value of the type
/// encodes to the same number of bytes.
pub trait ToData: Sized {
    /// The number of bytes every value of this type encodes to.
    spec fn size_spec() -> nat;

    /// The GPU-layout bytes of this value.
    spec fn data_spec(&self) -> Seq<u8>;

    /// Every value encodes to exactly `size_spec` bytes.
    proof fn data_size(&self)
        ensures
            self.data_spec().len() == Self::size_spec(),
    ;

    fn to_data(&self) -> (r: Vec<u8>)
        ensures
            r@ == self.data_spec(),
    ;
}

impl ToData for u32 {
    open spec fn size_spec() -> nat {
        4
    }

    open spec fn data_spec(&self) -> Seq<u8> {
        u32_le(*self)
    }

    proof fn data_size(&self) {
    }

    fn to_data(&self) -> (r: Vec<u8>) {
        let mut out: Vec<u8> = Vec::new();
        crate::codec::push_u32_le(&mut out, *self);
        out
    }
}

/// The GPU-layout bytes of a sequence of values, in order.
pub open spec fn seq_data_spec<C: ToData>(s: Seq<C>) -> Seq<u8>
    decreases s.len(),
{
    if s.len() == 0 {
        Seq::empty()
    } else {
        seq_data_spec(s.drop_last()) + s.last().data_spec()
    }
}

/// A sequence of `n` values encodes to `n * size_spec` bytes.
pub proof fn lemma_seq_data_len<C: ToData>(s: Seq<C>)
    ensures
        seq_data_spec(s).len() == s.len() * C::size_spec(),
    decreases s.len(),
{
    if s.len() == 0 {
    } else {
        lemma_seq_data_len::<C>(s.drop_last());
        s.last().data_size();
        assert((s.len() - 1) * C::size_spec() + C::size_spec() == s.len() * C::size_spec())
            by (nonlinear_arith);
    }
}

/// Encodes each element and concatenates the results.
pub fn encode_slice<C: ToData>(values: &Vec<C>) -> (r: Vec<u8>)
    ensures
        r@ == seq_data_spec(values@),
{
    let mut out: Vec<u8> = Vec::new();
    let mut i: usize = 0;
    while i < values.len()
        invariant
            i <= values.len(),
            out@ == seq_data_spec(values@.take(i as int)),
        decreases values.len() - i,
    {
        let mut piece = values[i].to_data();
        out.append(&mut piece);
        proof {
            assert(values@.take(i + 1).drop_last() =~= values@.take(i as int));
            assert(values@.take(i + 1).last() == values@[i as int]);
        }
        i = i + 1;
    }
    proof {
        assert(values@.take(values@.len() as int) =~= values@);
    }
    out
}

/// Buffer usage flags: what the allocation may be bound or written as.
#[derive(Clone, Copy, Debug, PartialEq, Eq, Structural)]
pub struct BufferUsages {
    pub vertex: bool,
    pub index: bool,
    pub uniform: bool,
    pub storage: bool,
    pub copy_dst: bool,
}

/// Which pipeline stages may read a binding.
#[derive(Clone, Copy, Debug, PartialEq, Eq, Structural)]
pub struct ShaderStages {
    pub vertex: bool,
    pub fragment: bool,
}

/// How a shader reads a bound buffer.
#[derive(Clone, Copy, Debug, PartialEq, Eq, Structural)]
pub enum BindingKind {
    Uniform,
    ReadOnlyStorage,
}

/// One entry of a binding-group layout: the slot number, the stages that may
/// read it, and the uniform-vs-storage semantics.
#[derive(Clone, Copy, Debug, PartialEq, Eq, Structural)]
pub struct BindGroupLayoutEntry {
    pub binding: u32,
    pub visibility: ShaderStages,
    pub kind: BindingKind,
}

/// A layout entry for a uniform buffer visible to both stages.
pub open spec fn uniform_layout_entry(binding: u32) -> BindGroupLayoutEntry {
    BindGroupLayoutEntry {
        binding,
        visibility: ShaderStages { vertex: true, fragment: true },
        kind: BindingKind::Uniform,
    }
}

/// A layout entry for a read-only storage buffer visible to both stages.
pub open spec fn storage_layout_entry(binding: u32) -> BindGroupLayoutEntry {
    BindGroupLayoutEntry {
        binding,
        visibility: ShaderStages { vertex: true, fragment: true },
        kind: BindingKind::ReadOnlyStorage,
    }
}

/// A binding group and its layout, built from one ordered entry list. The
/// group records, in order, the binding slot each bound resource was
/// attached to; layout and group always describe the same list.
#[derive(Clone, Debug)]
pub struct BindingSet {
    pub layout: Vec<BindGroupLayoutEntry>,
    pub group: Vec<u32>,
}

impl BindingSet {
    /// Layout and group come from the same ordered entries, and binding
    /// slots within the set are unique.
    pub open spec fn wf(&self) -> bool {
        &&& self.layout@.len() == self.group@.len()
        &&& forall|i: int|
            0 <= i < self.layout@.len() ==> self.group@[i] == self.layout@[i].binding
        &&& forall|i: int, j: int|
            0 <= i < j < self.layout@.len() ==> self.layout@[i].binding != self.layout@[j].binding
    }
}

/// The model of one allocated GPU buffer: its current bytes and the usage
/// flags it was created with. The byte length is fixed at creation.
#[derive(Clone, Debug)]
pub struct RawBuffer {
    pub contents: Vec<u8>,
    pub usage: BufferUsages,
}

impl RawBuffer {
    /// The fixed byte size of the allocation.
    pub open spec fn size_spec(&self) -> nat {
        self.contents@.len()
    }

    /// The buffer's current bytes.
    pub fn bytes(&self) -> (r: &Vec<u8>)
        ensures
            r@ == self.contents@,
    {
        &self.contents
    }

    /// Overwrites the first `data.len()` bytes in place; the allocation
    /// keeps its size and the bytes past `data.len()` keep their values.
    /// Writing more bytes than were allocated is a fatal resource error,
    /// ruled out here rather than recovered from.
    pub fn write(&mut self, data: &Vec<u8>)
        requires
            data@.len() <= old(self).size_spec(),
        ensures
            final(self).contents@ == data@ + old(self).contents@.skip(data@.len() as int),
            final(self).usage == old(self).usage,
    {
        let n = data.len();
        let mut out: Vec<u8> = Vec::new();
        let mut i: usize = 0;
        while i < n
            invariant
                i <= n,
                n == data@.len(),
                out@ == data@.take(i as int),
            decreases n - i,
        {
            out.push(data[i]);
            proof {
                assert(data@.take(i + 1) =~= data@.take(i as int).push(data@[i as int]));
            }
            i = i + 1;
        }
        proof {
            assert(data@.take(n as int) =~= data@);
        }
        while i < self.contents.len()
            invariant
                n <= i <= self.contents@.len(),
                n == data@.len(),
                self == old(self),
                out@ == data@ + self.contents@.subrange(n as int, i as int),
            decreases self.contents@.len() - i,
        {
            let b = self.contents[i];
            out.push(b);
            proof {
                assert(self.contents@.subrange(n as int, i + 1) =~= self.contents@.subrange(
                    n as int,
                    i as int,
                ).push(self.contents@[i as int]));
            }
            i = i + 1;
        }
        proof {
            assert(out@ == data@ + self.contents@.subrange(n as int, self.contents@.len() as int));
            assert(self.contents@.subrange(n as int, self.contents@.len() as int) =~= self
                .contents@.skip(n as int));
        }
        self.contents = out;
    }
}

/// A buffer holding uniform data, updatable in place.
pub fn uniform(contents: Vec<u8>) -> (b: RawBuffer)
    ensures
        b.contents@ == contents@,
        b.usage == (BufferUsages {
            vertex: false,
            index: false,
            uniform: true,
            storage: false,
            copy_dst: true,
        }),
{
    buffer(
        contents,
        BufferUsages { vertex: false, index: false, uniform: true, storage: false, copy_dst: true },
    )
}

/// A buffer holding a storage array, updatable in place.
pub fn storage(contents: Vec<u8>) -> (b: RawBuffer)
    ensures
        b.contents@ == contents@,
        b.usage == (BufferUsages {
            vertex: false,
            index: false,
            uniform: false,
            storage: true,
            copy_dst: true,
        }),
{
    buffer(
        contents,
        BufferUsages { vertex: false, index: false, uniform: false, storage: true, copy_dst: true },
    )
}

/// A buffer holding immutable vertex data.
pub fn vertex(contents: Vec<u8>) -> (b: RawBuffer)
    ensures
        b.contents@ == contents@,
        b.usage == (BufferUsages {
            vertex: true,
            index: false,
            uniform: false,
            storage: false,
            copy_dst: false,
        }),
{
    buffer(
        contents,
        BufferUsages { vertex: true, index: false, uniform: false, storage: false, copy_dst: false },
    )
}

/// A buffer holding a per-instance vertex stream, updatable in place.
pub fn instance(contents: Vec<u8>) -> (b: RawBuffer)
    ensures
        b.contents@ == contents@,
        b.usage == (BufferUsages {
            vertex: true,
            index: false,
            uniform: false,
            storage: false,
            copy_dst: true,
        }),
{
    buffer(
        contents,
        BufferUsages { vertex: true, index: false, uniform: false, storage: false, copy_dst: true },
    )
}

/// A buffer holding immutable index data.
pub fn index(contents: Vec<u8>) -> (b: RawBuffer)
    ensures
        b.contents@ == contents@,
        b.usage == (BufferUsages {
            vertex: false,
            index: true,
            uniform: false,
            storage: false,
            copy_dst: false,
        }),
{
    buffer(
        contents,
        BufferUsages { vertex: false, index: true, uniform: false, storage: false, copy_dst: false },
    )
}

/// A buffer allocated with exactly the given initial bytes and usage.
pub fn buffer(contents: Vec<u8>, usage: BufferUsages) -> (b: RawBuffer)
    ensures
        b.contents@ == contents@,
        b.usage == usage,
{
    RawBuffer { contents, usage }
}

/// The binding set of a single uniform buffer at the given slot, visible to
/// the vertex and fragment stages.
pub fn create_uniform_bind_group(binding: u32) -> (r: BindingSet)
    ensures
        r.layout@ == seq![uniform_layout_entry(binding)],
        r.group@ == seq![binding],
        r.wf(),
{
    let mut layout: Vec<BindGroupLayoutEntry> = Vec::new();
    layout.push(
        BindGroupLayoutEntry {
            binding,
            visibility: ShaderStages { vertex: true, fragment: true },
            kind: BindingKind::Uniform,
        },
    );
    let mut group: Vec<u32> = Vec::new();
    group.push(binding);
    proof {
        assert(layout@ =~= seq![uniform_layout_entry(binding)]);
        assert(group@ =~= seq![binding]);
    }
    BindingSet { layout, group }
}

/// The binding set pairing a read-only storage buffer at slot 0 with the
/// uniform buffer holding its live element count at slot 1, both visible to
/// the vertex and fragment stages.
pub fn create_storage_bind_group() -> (r: BindingSet)
    ensures
        r.layout@ == seq![storage_layout_entry(0), uniform_layout_entry(1)],
        r.group@ == seq![0u32, 1u32],
        r.wf(),
{
    let mut layout: Vec<BindGroupLayoutEntry> = Vec::new();
    layout.push(
        BindGroupLayoutEntry {
            binding: 0,
            visibility: ShaderStages { vertex: true, fragment: true },
            kind: BindingKind::ReadOnlyStorage,
        },
    );
    layout.push(
        BindGroupLayoutEntry {
            binding: 1,
            visibility: ShaderStages { vertex: true, fragment: true },
            kind: BindingKind::Uniform,
        },
    );
    let mut group: Vec<u32> = Vec::new();
    group.push(0);
    group.push(1);
    proof {
        assert(layout@ =~= seq![storage_layout_entry(0), uniform_layout_entry(1)]);
        assert(group@ =~= seq![0u32, 1u32]);
    }
    BindingSet { layout, group }
}

/// A GPU buffer together with the binding set built for it, tagged with the
/// host type whose encoded bytes it holds.
#[derive(Debug)]
pub struct Buffer<C: ToData> {
    pub raw: RawBuffer,
    pub binding: BindingSet,
    pub content_marker: core::marker::PhantomData<C>,
}

impl<C: ToData> Buffer<C> {
    pub fn new(raw: RawBuffer, binding: BindingSet) -> (b: Buffer<C>)
        ensures
            b.raw.contents@ == raw.contents@,
            b.raw.usage == raw.usage,
            b.binding.layout@ == binding.layout@,
            b.binding.group@ == binding.group@,
    {
        Buffer { raw, binding, content_marker: core::marker::PhantomData }
    }

    pub fn raw(&self) -> (r: &RawBuffer)
        ensures
            r == &self.raw,
    {
        &self.raw
    }

    pub fn bind_group(&self) -> (r: &BindingSet)
        ensures
            r == &self.binding,
    {
        &self.binding
    }

    pub fn layout(&self) -> (r: &Vec<BindGroupLayoutEntry>)
        ensures
            r@ == self.binding.layout@,
    {
        &self.binding.layout
    }

    /// Re-encodes the given values and overwrites the buffer's first bytes;
    /// the encoded length may not exceed the allocation.
    pub fn update(&mut self, _context: &Context, content: &Vec<C>)
        requires
            seq_data_spec(content@).len() <= old(self).raw.size_spec(),
        ensures
            final(self).raw.contents@ == seq_data_spec(content@) + old(self).raw.contents@.skip(
                seq_data_spec(content@).len() as int,
            ),
            final(self).raw.usage == old(self).raw.usage,
            final(self).binding.layout@ == old(self).binding.layout@,
            final(self).binding.group@ == old(self).binding.group@,
    {
        let data = encode_slice(content);
        self.raw.write(&data);
    }
}

/// A uniform slot: one encoded value of `C`, allocated once at exactly the
/// encoded size, overwritten in place on update, bound at slot 0 for the
/// vertex and fragment stages.
pub struct Uniform<C: ToData> {
    pub uniform: Buffer<C>,
}

impl<C: ToData> Uniform<C> {
    /// The slot's allocation is exactly one encoded `C`, flagged for
    /// uniform binding and copy destination, with a single-binding set.
    pub open spec fn wf(&self) -> bool {
        &&& self.uniform.raw.size_spec() == C::size_spec()
        &&& self.uniform.raw.usage == (BufferUsages {
            vertex: false,
            index: false,
            uniform: true,
            storage: false,
            copy_dst: true,
        })
        &&& self.uniform.binding.layout@ == seq![uniform_layout_entry(0)]
        &&& self.uniform.binding.group@ == seq![0u32]
        &&& self.uniform.binding.wf()
    }

    /// The bytes the slot currently holds.
    pub open spec fn contents_spec(&self) -> Seq<u8> {
        self.uniform.raw.contents@
    }

    pub fn new(_context: &Context, content: &C) -> (u: Uniform<C>)
        ensures
            u.wf(),
            u.contents_spec() == content.data_spec(),
    {
        let raw = uniform(content.to_data());
        let binding = create_uniform_bind_group(0);
        proof {
            content.data_size();
        }
        Uniform { uniform: Buffer::new(raw, binding) }
    }

    pub fn raw(&self) -> (r: &Buffer<C>)
        ensures
            r == &self.uniform,
    {
        &self.uniform
    }

    pub fn layout(&self) -> (r: &Vec<BindGroupLayoutEntry>)
        ensures
            r@ == self.uniform.binding.layout@,
    {
        self.uniform.layout()
    }

    pub fn bind_group(&self) -> (r: &BindingSet)
        ensures
            r == &self.uniform.binding,
    {
        self.uniform.bind_group()
    }

    /// Overwrites the slot with a new encoded value. A uniform buffer never
    /// changes size, so the new bytes replace the old ones exactly.
    pub fn update(&mut self, _context: &Context, content: &C)
        requires
            old(self).wf(),
        ensures
            final(self).wf(),
            final(self).contents_spec() == content.data_spec(),
    {
        let data = content.to_data();
        proof {
            content.data_size();
        }
        self.uniform.raw.write(&data);
        proof {
            assert(self.uniform.raw.contents@ =~= content.data_spec());
        }
    }
}

/// A storage slot: an encoded array of `C` paired with a companion uniform
/// buffer holding the live element count, bound as storage at slot 0 and
/// count at slot 1.
pub struct Storage<C: ToData> {
    pub storage: Buffer<C>,
    pub length_buffer: RawBuffer,
}

impl<C: ToData> Storage<C> {
    /// The storage allocation's usage, binding set and companion count
    /// buffer have the shapes fixed at construction.
    pub open spec fn wf(&self) -> bool {
        &&& self.storage.raw.usage == (BufferUsages {
            vertex: false,
            index: false,
            uniform: false,
            storage: true,
            copy_dst: true,
        })
        &&& self.storage.binding.layout@ == seq![storage_layout_entry(0), uniform_layout_entry(1)]
        &&& self.storage.binding.group@ == seq![0u32, 1u32]
        &&& self.storage.binding.wf()
        &&& self.length_buffer.size_spec() == 4
        &&& self.length_buffer.usage == (BufferUsages {
            vertex: false,
            index: false,
            uniform: true,
            storage: false,
            copy_dst: true,
        })
    }

    /// The bytes of the storage array.
    pub open spec fn contents_spec(&self) -> Seq<u8> {
        self.storage.raw.contents@
    }

    /// The bytes of the companion count buffer.
    pub open spec fn count_spec(&self) -> Seq<u8> {
        self.length_buffer.contents@
    }

    /// Allocates the storage array at exactly the size of the initial
    /// contents; the companion count buffer holds the live element count
    /// from the start.
    pub fn new(_context: &Context, content: &Vec<C>) -> (s: Storage<C>)
        requires
            content@.len() <= 0xFFFF_FFFF,
        ensures
            s.wf(),
            s.contents_spec() == seq_data_spec(content@),
            s.count_spec() == u32_le(content@.len() as u32),
    {
        let storage_buffer = storage(encode_slice(content));
        let count: u32 = content.len() as u32;
        let length_buffer = uniform(count.to_data());
        let binding = create_storage_bind_group();
        Storage { storage: Buffer::new(storage_buffer, binding), length_buffer }
    }

    pub fn raw(&self) -> (r: &Buffer<C>)
        ensures
            r == &self.storage,
    {
        &self.storage
    }

    pub fn layout(&self) -> (r: &Vec<BindGroupLayoutEntry>)
        ensures
            r@ == self.storage.binding.layout@,
    {
        self.storage.layout()
    }

    pub fn bind_group(&self) -> (r: &BindingSet)
        ensures
            r == &self.storage.binding,
    {
        self.storage.bind_group()
    }

    /// Rewrites the storage bytes and the companion count. The encoded
    /// bytes may not exceed the allocation made at construction.
    pub fn update(&mut self, context: &Context, content: &Vec<C>)
        requires
            old(self).wf(),
            seq_data_spec(content@).len() <= old(self).storage.raw.size_spec(),
            content@.len() <= 0xFFFF_FFFF,
        ensures
            final(self).wf(),
            final(self).contents_spec() == seq_data_spec(content@) + old(
                self,
            ).contents_spec().skip(seq_data_spec(content@).len() as int),
            final(self).count_spec() == u32_le(content@.len() as u32),
            final(self).storage.raw.size_spec() == old(self).storage.raw.size_spec(),
    {
        self.storage.update(context, content);
        let count: u32 = content.len() as u32;
        let count_bytes = count.to_data();
        self.length_buffer.write(&count_bytes);
        proof {
            assert(self.length_buffer.contents@ =~= u32_le(content@.len() as u32));
        }
    }
}

/// A byte range of a buffer, used to bind a sub-slice of the instance
/// stream for a partial draw.
#[derive(Clone, Copy, Debug, PartialEq, Eq, Structural)]
pub struct BufferRange {
    pub first_byte: usize,
    pub byte_len: usize,
}

/// An instance slot: an encoded array of `C` consumed as a per-instance
/// vertex stream rather than through a binding group.
pub struct InstanceBuffer<C: ToData> {
    pub raw: RawBuffer,
    pub content_marker: core::marker::PhantomData<C>,
}

impl<C: ToData> InstanceBuffer<C> {
    /// The allocation is flagged as a writable vertex stream.
    pub open spec fn wf(&self) -> bool {
        self.raw.usage == (BufferUsages {
            vertex: true,
            index: false,
            uniform: false,
            storage: false,
            copy_dst: true,
        })
    }

    /// The bytes of the instance stream.
    pub open spec fn contents_spec(&self) -> Seq<u8> {
        self.raw.contents@
    }

    /// Allocates the stream at exactly the size of the initial contents.
    pub fn new(_context: &Context, content: &Vec<C>) -> (b: InstanceBuffer<C>)
        ensures
            b.wf(),
            b.contents_spec() == seq_data_spec(content@),
    {
        let raw = instance(encode_slice(content));
        InstanceBuffer { raw, content_marker: core::marker::PhantomData }
    }

    /// Rewrites the stream's first bytes; the encoded bytes may not exceed
    /// the allocation made at construction.
    pub fn update(&mut self, _context: &Context, content: &Vec<C>)
        requires
            old(self).wf(),
            seq_data_spec(content@).len() <= old(self).raw.size_spec(),
        ensures
            final(self).wf(),
            final(self).contents_spec() == seq_data_spec(content@) + old(
                self,
            ).contents_spec().skip(seq_data_spec(content@).len() as int),
            final(self).raw.size_spec() == old(self).raw.size_spec(),
    {
        let data = encode_slice(content);
        self.raw.write(&data);
    }

    /// The byte range covering `[first_byte, first_byte + byte_len)` of the
    /// stream, for binding a prefix of the instances to a draw.
    pub fn slice(&self, first_byte: usize, byte_len: usize) -> (r: BufferRange)
        requires
            first_byte + byte_len <= self.raw.size_spec(),
        ensures
            r == (BufferRange { first_byte, byte_len }),
    {
        BufferRange { first_byte, byte_len }
    }

    pub fn raw(&self) -> (r: &RawBuffer)
        ensures
            r == &self.raw,
    {
        &self.raw
    }
}

} // verus!
