use gridlight::buffers::buffer;
use gridlight::buffers::create_storage_bind_group;
use gridlight::buffers::create_uniform_bind_group;
use gridlight::buffers::encode_slice;
use gridlight::buffers::index;
use gridlight::buffers::instance;
use gridlight::buffers::storage;
use gridlight::buffers::uniform;
use gridlight::buffers::BindingKind;
use gridlight::buffers::BufferUsages;
use gridlight::buffers::Storage;
use gridlight::buffers::ToData;
use gridlight::buffers::Uniform;
use gridlight::renderer::Context;
use gridlight::renderer::TextureFormat;

fn ctx() -> Context {
    Context::new(800, 600, TextureFormat::Bgra8UnormSrgb)
}

#[test]
fn buffer_kinds_carry_their_usage_flags() {
    let u = uniform(vec![1, 2, 3, 4]);
    assert!(u.usage.uniform && u.usage.copy_dst);
    assert!(!u.usage.vertex && !u.usage.index && !u.usage.storage);

    let s = storage(vec![1, 2]);
    assert!(s.usage.storage && s.usage.copy_dst);
    assert!(!s.usage.uniform && !s.usage.vertex && !s.usage.index);

    let v = gridlight::buffers::vertex(vec![9]);
    assert!(v.usage.vertex && !v.usage.copy_dst);

    let i = index(vec![0, 1]);
    assert!(i.usage.index && !i.usage.copy_dst);

    let n = instance(vec![5]);
    assert!(n.usage.vertex && n.usage.copy_dst);
}

#[test]
fn buffer_keeps_given_contents_and_usage() {
    let usage = BufferUsages { vertex: true, index: false, uniform: false, storage: false, copy_dst: true };
    let b = buffer(vec![7, 8, 9], usage);
    assert_eq!(*b.bytes(), vec![7, 8, 9]);
    assert_eq!(b.usage, usage);
}

#[test]
fn write_overwrites_prefix_and_keeps_size() {
    let mut b = uniform(vec![1, 2, 3, 4]);
    b.write(&vec![9, 8]);
    assert_eq!(*b.bytes(), vec![9, 8, 3, 4]);
    b.write(&vec![5, 5, 5, 5]);
    assert_eq!(*b.bytes(), vec![5, 5, 5, 5]);
}

#[test]
fn uniform_bind_group_has_one_entry_both_stages() {
    let set = create_uniform_bind_group(0);
    assert_eq!(set.layout.len(), 1);
    assert_eq!(set.layout[0].binding, 0);
    assert!(set.layout[0].visibility.vertex && set.layout[0].visibility.fragment);
    assert!(matches!(set.layout[0].kind, BindingKind::Uniform));
    assert_eq!(set.group, vec![0]);
}

#[test]
fn storage_bind_group_pairs_array_with_count() {
    let set = create_storage_bind_group();
    assert_eq!(set.layout.len(), 2);
    assert_eq!(set.layout[0].binding, 0);
    assert!(matches!(set.layout[0].kind, BindingKind::ReadOnlyStorage));
    assert_eq!(set.layout[1].binding, 1);
    assert!(matches!(set.layout[1].kind, BindingKind::Uniform));
    assert_eq!(set.group, vec![0, 1]);
    // Group and layout list the same binding slots in the same order.
    for (i, entry) in set.layout.iter().enumerate() {
        assert_eq!(set.group[i], entry.binding);
    }
}

#[test]
fn uniform_slot_is_sized_exactly_and_updates_in_place() {
    let c = ctx();
    let mut slot: Uniform<u32> = Uniform::new(&c, &0xAABBCCDD);
    assert_eq!(*slot.raw().raw().bytes(), 0xAABBCCDDu32.to_le_bytes().to_vec());
    slot.update(&c, &1);
    assert_eq!(*slot.raw().raw().bytes(), 1u32.to_le_bytes().to_vec());
    // A uniform buffer never changes size.
    assert_eq!(slot.raw().raw().bytes().len(), 4);
}

#[test]
fn storage_slot_tracks_contents_and_count() {
    let c = ctx();
    let initial: Vec<u32> = vec![10, 20, 30];
    let mut slot: Storage<u32> = Storage::new(&c, &initial);
    assert_eq!(*slot.raw().raw().bytes(), encode_slice(&initial));
    // The companion count holds the live element count from the start and
    // follows each update.
    assert_eq!(*slot.length_buffer.bytes(), 3u32.to_le_bytes().to_vec());
    let fewer: Vec<u32> = vec![7];
    slot.update(&c, &fewer);
    assert_eq!(slot.length_buffer.bytes().as_slice(), &1u32.to_le_bytes());
    // The rewrite touches only the bytes it wrote; the allocation keeps
    // its size, with stale bytes past the live prefix.
    assert_eq!(slot.raw().raw().bytes().len(), 12);
    assert_eq!(&slot.raw().raw().bytes()[0..4], &7u32.to_le_bytes());
}

#[test]
fn storage_update_at_exact_capacity_is_allowed() {
    let c = ctx();
    let initial: Vec<u32> = vec![1, 2];
    let mut slot: Storage<u32> = Storage::new(&c, &initial);
    let replacement: Vec<u32> = vec![3, 4];
    slot.update(&c, &replacement);
    assert_eq!(*slot.raw().raw().bytes(), encode_slice(&replacement));
    assert_eq!(slot.length_buffer.bytes().as_slice(), &2u32.to_le_bytes());
}

#[test]
fn encode_slice_concatenates_elements() {
    let values: Vec<u32> = vec![1, 2];
    let bytes = encode_slice(&values);
    assert_eq!(bytes[0..4], 1u32.to_le_bytes());
    assert_eq!(bytes[4..8], 2u32.to_le_bytes());
}

#[test]
fn slot_layouts_expose_binding_shapes() {
    let c = ctx();
    let u: Uniform<u32> = Uniform::new(&c, &5);
    assert_eq!(u.layout().len(), 1);
    assert_eq!(u.bind_group().group, vec![0]);
    let s: Storage<u32> = Storage::new(&c, &vec![1]);
    assert_eq!(s.layout().len(), 2);
    assert_eq!(s.bind_group().group, vec![0, 1]);
}

#[test]
fn instance_buffer_slices_prefixes() {
    let c = ctx();
    let values: Vec<u32> = vec![1, 2, 3];
    let b = gridlight::buffers::InstanceBuffer::new(&c, &values);
    let r = b.slice(0, 8);
    assert_eq!(r.first_byte, 0);
    assert_eq!(r.byte_len, 8);
    assert_eq!(b.raw().bytes().len(), 12);
}

#[test]
fn u32_to_data_via_trait() {
    assert_eq!(42u32.to_data(), 42u32.to_le_bytes().to_vec());
}
