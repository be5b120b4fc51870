use rgb_utils::errors::{Error, ErrorKind};
use rgb_utils::info::{AssetSchema, ContractId, RgbInfo};
use rgb_utils::memory::MemoryStore;
use rgb_utils::records::{ChannelId, RgbKvStoreExt};
use rgb_utils::rename::try_rename_rgb_files;
use rgb_utils::store::{
    KVStoreSync, RGB_CHANNEL_INFO_NS, RGB_CHANNEL_INFO_PENDING_NS, RGB_CONSIGNMENT_NS,
    RGB_PRIMARY_NS, StoreView,
};

/// A store whose calls fail at one point, with the write or removal done or not.
struct Faulty {
    inner: MemoryStore,
    calls: usize,
    fails_at: usize,
    applied: bool,
}

impl Faulty {
    fn fails(&mut self) -> bool {
        self.calls += 1;
        self.calls == self.fails_at + 1
    }

    fn fault<T>() -> Result<T, Error> {
        Err(Error::Stated { kind: ErrorKind::Other, message: "disk".to_string() })
    }
}

impl KVStoreSync for Faulty {
    fn view(&self) -> StoreView {
        unreachable!("only contracts speak of it")
    }

    fn read(&mut self, primary: &str, secondary: &str, key: &str) -> Result<Vec<u8>, Error> {
        if self.fails() {
            return Faulty::fault();
        }
        self.inner.read(primary, secondary, key)
    }

    fn write(
        &mut self,
        primary: &str,
        secondary: &str,
        key: &str,
        data: Vec<u8>,
    ) -> Result<(), Error> {
        if self.fails() {
            if self.applied {
                self.inner.write(primary, secondary, key, data).unwrap();
            }
            return Faulty::fault();
        }
        self.inner.write(primary, secondary, key, data)
    }

    fn remove(
        &mut self,
        primary: &str,
        secondary: &str,
        key: &str,
        lazy: bool,
    ) -> Result<(), Error> {
        if self.fails() {
            if self.applied {
                self.inner.remove(primary, secondary, key, lazy).unwrap();
            }
            return Faulty::fault();
        }
        self.inner.remove(primary, secondary, key, lazy)
    }
}

const TEMPORARY: ChannelId = ChannelId([1; 32]);
const CHANNEL: ChannelId = ChannelId([2; 32]);

fn info(local: u64) -> RgbInfo {
    RgbInfo {
        contract_id: ContractId([7; 32]),
        schema: AssetSchema::Uda,
        local_rgb_amount: local,
        remote_rgb_amount: 5,
        batch_transfer_idx: Some(-3),
        counterparty_knows_asset: true,
    }
}

fn filled() -> MemoryStore {
    let mut store = MemoryStore::new();
    let id = TEMPORARY.to_hex();
    store.write_rgb_channel_info(&id, &info(10), false).unwrap();
    store.write_rgb_channel_info(&id, &info(20), true).unwrap();
    store.write_rgb_consignment(&id, vec![1, 2, 3]).unwrap();
    store
}

fn check_moved(store: &mut MemoryStore) {
    let id = CHANNEL.to_hex();
    let old = TEMPORARY.to_hex();
    assert_eq!(store.read_rgb_channel_info(&id, false).unwrap(), info(10));
    assert_eq!(store.read_rgb_channel_info(&id, true).unwrap(), info(20));
    assert_eq!(store.read_rgb_consignment(&id).unwrap(), vec![1, 2, 3]);
    for error in [
        store.read_rgb_channel_info(&old, false).unwrap_err(),
        store.read_rgb_channel_info(&old, true).unwrap_err(),
        store.read_rgb_consignment(&old).unwrap_err(),
    ] {
        assert_eq!(error.kind(), ErrorKind::NotFound);
    }
}

#[test]
fn renaming_moves_info_and_consignment() {
    let mut store = filled();
    try_rename_rgb_files(&CHANNEL, &TEMPORARY, &mut store).unwrap();
    check_moved(&mut store);
    try_rename_rgb_files(&CHANNEL, &TEMPORARY, &mut store).unwrap();
    check_moved(&mut store);
}

#[test]
fn renaming_works_without_a_consignment() {
    let mut store = filled();
    store.remove_rgb_consignment(&TEMPORARY.to_hex()).unwrap();
    try_rename_rgb_files(&CHANNEL, &TEMPORARY, &mut store).unwrap();
    assert!(store.read_rgb_consignment(&CHANNEL.to_hex()).is_err());
    assert_eq!(store.read_rgb_channel_info(&CHANNEL.to_hex(), true).unwrap(), info(20));
}

#[test]
fn renaming_resumes_after_any_failure() {
    for applied in [false, true] {
        let mut failures = 0;
        for fails_at in 0..12 {
            let mut store = Faulty { inner: filled(), calls: 0, fails_at, applied };
            if let Err(error) = try_rename_rgb_files(&CHANNEL, &TEMPORARY, &mut store) {
                assert_eq!(error.message(), "disk");
                failures += 1;
            }
            let mut store = store.inner;
            try_rename_rgb_files(&CHANNEL, &TEMPORARY, &mut store).unwrap();
            check_moved(&mut store);
        }
        assert_eq!(failures, 12);
    }
}

#[test]
fn other_info_under_the_final_id_is_a_conflict() {
    for pending in [false, true] {
        let mut store = filled();
        store.write_rgb_channel_info(&CHANNEL.to_hex(), &info(99), pending).unwrap();
        let error = try_rename_rgb_files(&CHANNEL, &TEMPORARY, &mut store).unwrap_err();
        assert_eq!(error.kind(), ErrorKind::InvalidData);
        assert_eq!(
            error.message(),
            "final RGB channel metadata differs from temporary metadata"
        );
        assert_eq!(store.read_rgb_channel_info(&CHANNEL.to_hex(), pending).unwrap(), info(99));
    }
}

#[test]
fn other_consignment_under_the_final_id_is_a_conflict() {
    let mut store = filled();
    store.write_rgb_consignment(&CHANNEL.to_hex(), vec![4]).unwrap();
    let error = try_rename_rgb_files(&CHANNEL, &TEMPORARY, &mut store).unwrap_err();
    assert_eq!(error.kind(), ErrorKind::InvalidData);
    assert_eq!(error.message(), "final RGB consignment differs from temporary consignment");
    assert_eq!(store.read_rgb_consignment(&TEMPORARY.to_hex()).unwrap(), vec![1, 2, 3]);
}

#[test]
fn info_that_does_not_decode_is_not_moved() {
    for namespace in [RGB_CHANNEL_INFO_NS, RGB_CHANNEL_INFO_PENDING_NS] {
        for id in [TEMPORARY.to_hex(), CHANNEL.to_hex()] {
            let mut store = filled();
            store.remove(RGB_PRIMARY_NS, namespace, &TEMPORARY.to_hex(), false).unwrap();
            store.write(RGB_PRIMARY_NS, namespace, &id, vec![0]).unwrap();
            let error = try_rename_rgb_files(&CHANNEL, &TEMPORARY, &mut store).unwrap_err();
            assert_eq!(error.kind(), ErrorKind::InvalidData);
            assert_eq!(store.read(RGB_PRIMARY_NS, namespace, &id).unwrap(), vec![0]);
            assert_eq!(
                store.read(RGB_PRIMARY_NS, RGB_CONSIGNMENT_NS, &TEMPORARY.to_hex()).unwrap(),
                vec![1, 2, 3]
            );
        }
    }
}

#[test]
fn same_data_under_the_final_id_is_no_conflict() {
    let mut store = filled();
    store.write_rgb_channel_info(&CHANNEL.to_hex(), &info(10), false).unwrap();
    store.write_rgb_consignment(&CHANNEL.to_hex(), vec![1, 2, 3]).unwrap();
    try_rename_rgb_files(&CHANNEL, &TEMPORARY, &mut store).unwrap();
    check_moved(&mut store);
}
