use memmap2::MmapMut;
use rkyv::rancor;
use rkyv::tuple::ArchivedTuple2;
use rkyv::Archived;
use rkyv_util::mmap::{ContractMmap, ContractMmapMut};
use rkyv_util::owned::OwnedArchive;

type Stub = (u8, u64);
type ArchivedStub = ArchivedTuple2<u8, Archived<u64>>;

fn mapped_stub(stub: &Stub) -> MmapMut {
    let bytes = rkyv::to_bytes::<rancor::Error>(stub).unwrap();
    let mut map = MmapMut::map_anon(bytes.len()).unwrap();
    map.copy_from_slice(&bytes);
    map
}

#[test]
fn test_owned_archive_vec_mmap() {
    let stub: Stub = (4, 5);
    let mmap = mapped_stub(&stub).make_read_only().unwrap();

    let owned: OwnedArchive<Stub, ContractMmap> =
        OwnedArchive::from_mmap::<rancor::Error>(mmap).unwrap();
    let view = rkyv::access::<ArchivedStub, rancor::Error>(owned.bytes()).unwrap();

    assert_eq!(view.0, 4);
    assert_eq!(view.1, 5);

    assert_eq!(*view, stub);
}

#[test]
fn test_owned_archive_vec_mmap_mut() {
    let stub: Stub = (4, 5);
    let mmap = mapped_stub(&stub);

    let mut owned: OwnedArchive<Stub, ContractMmapMut> =
        OwnedArchive::from_mmap_mut::<rancor::Error>(mmap).unwrap();
    {
        let view = rkyv::access::<ArchivedStub, rancor::Error>(owned.bytes()).unwrap();
        assert_eq!(view.0, 4);
        assert_eq!(view.1, 5);
        assert_eq!(*view, stub);
    }

    let pos = rkyv::api::root_position::<ArchivedStub>(owned.bytes().len());
    owned.bytes_mut()[pos] = 3;
    let view = rkyv::access::<ArchivedStub, rancor::Error>(owned.bytes()).unwrap();
    assert_eq!(view.0, 3);
}

#[test]
fn mapped_archive_rejects_a_short_region() {
    let bytes = rkyv::to_bytes::<rancor::Error>(&(4u8, 5u64)).unwrap();
    let mut map = MmapMut::map_anon(bytes.len() - 1).unwrap();
    map.copy_from_slice(&bytes[..bytes.len() - 1]);
    assert!(OwnedArchive::<Stub, ContractMmapMut>::from_mmap_mut::<rancor::Error>(map).is_err());
}
