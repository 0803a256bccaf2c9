use agent_ledgers::bytes::{copy_bytes, copy_range, has_proper_prefix, same_bytes};
use agent_ledgers::codec::decode_amount;
use agent_ledgers::metadata::{find_value, merge_entries, upsert_entry, MetadataEntry};
use agent_ledgers::pricing::{read_config, sync_pricing_metadata, AgentServiceConfig, ServiceKey};
use agent_ledgers::store::{StorageModule, Store};
use agent_ledgers::types::{native_token_id, parse_token, Address};

fn entry(key: &[u8], value: &[u8]) -> MetadataEntry {
    MetadataEntry { key: key.to_vec(), value: value.to_vec() }
}

#[test]
fn store_keeps_one_value_per_key() {
    let mut store: Store<u64, u32> = Store::new();
    assert!(!store.contains(&1));
    assert_eq!(store.get(&1), None);
    assert_eq!(store.len(), 0);
    store.insert(1, 10);
    store.insert(2, 20);
    store.insert(1, 11);
    assert_eq!(store.len(), 2);
    assert_eq!(store.get(&1), Some(&11));
    assert_eq!(store.get(&2), Some(&20));
    assert!(store.contains(&2));
    store.remove(&1);
    store.remove(&7);
    assert_eq!(store.len(), 1);
    assert_eq!(store.get(&1), None);
    assert_eq!(store.get(&2), Some(&20));
}

#[test]
fn store_tells_byte_keys_apart() {
    let mut store: Store<Vec<u8>, u8> = Store::new();
    store.insert(b"job_1".to_vec(), 1);
    store.insert(b"job_".to_vec(), 2);
    store.insert(b"job_10".to_vec(), 3);
    store.insert(Vec::new(), 4);
    assert_eq!(store.get(&b"job_1".to_vec()), Some(&1));
    assert_eq!(store.get(&b"job_".to_vec()), Some(&2));
    assert_eq!(store.get(&b"job_10".to_vec()), Some(&3));
    assert_eq!(store.get(&Vec::new()), Some(&4));
    assert_eq!(store.get(&b"job_2".to_vec()), None);
}

#[test]
fn store_serves_as_storage() {
    let mut store: Store<Address, u64> = Store::new();
    let a = Address::new([1; 32]);
    let mut almost = [1u8; 32];
    almost[31] = 2;
    let b = Address::new(almost);
    store.write(a, 5);
    assert_eq!(store.read(&a), Some(&5));
    assert_eq!(store.read(&b), None);
    store.write(b, 6);
    store.clear(&a);
    assert_eq!(store.read(&a), None);
    assert_eq!(store.read(&b), Some(&6));
    assert!(a.is(&a));
    assert!(!a.is(&b));
    assert_eq!(Address::zero(), Address::new([0; 32]));
}

#[test]
fn byte_helpers() {
    assert!(same_bytes(b"abc", b"abc"));
    assert!(same_bytes(b"", b""));
    assert!(!same_bytes(b"abc", b"abd"));
    assert!(!same_bytes(b"abc", b"ab"));
    assert_eq!(copy_bytes(b"abc"), b"abc".to_vec());
    assert_eq!(copy_range(b"price:chat", 6, 10), b"chat".to_vec());
    assert_eq!(copy_range(b"abc", 1, 1), Vec::<u8>::new());
    assert!(has_proper_prefix(b"price:chat", b"price:"));
    assert!(!has_proper_prefix(b"price:", b"price:"));
    assert!(!has_proper_prefix(b"pric", b"price:"));
    assert!(!has_proper_prefix(b"prize:chat", b"price:"));
    assert!(has_proper_prefix(b"x", b""));
    assert!(!has_proper_prefix(b"", b""));
}

#[test]
fn amounts_are_read_big_endian() {
    assert_eq!(decode_amount(&[]), 0);
    assert_eq!(decode_amount(&[0]), 0);
    assert_eq!(decode_amount(&[0x64]), 100);
    assert_eq!(decode_amount(&[0xC8]), 200);
    assert_eq!(decode_amount(&[1, 0]), 256);
    assert_eq!(decode_amount(&[0x0d, 0xe0, 0xb6, 0xb3, 0xa7, 0x64, 0x00, 0x00]), 1_000_000_000_000_000_000);
    assert_eq!(decode_amount(&[0xff; 16]), u128::MAX);
    let mut just_over = vec![1u8];
    just_over.extend_from_slice(&[0u8; 16]);
    assert_eq!(decode_amount(&just_over), u128::MAX);
    let mut padded = vec![0u8; 20];
    padded.push(9);
    assert_eq!(decode_amount(&padded), 9);
}

#[test]
fn token_identifiers_are_normalised() {
    assert_eq!(parse_token(b""), native_token_id());
    assert_eq!(parse_token(b"EGLD"), native_token_id());
    assert_eq!(parse_token(b"EGLD-000000"), b"EGLD-000000".to_vec());
    assert_eq!(parse_token(b"egld"), b"egld".to_vec());
    assert_eq!(parse_token(b"USDC-123456"), b"USDC-123456".to_vec());
}

#[test]
fn metadata_is_merged_by_key() {
    let list = vec![entry(b"a", b"1"), entry(b"b", b"2"), entry(b"a", b"3")];
    assert_eq!(
        upsert_entry(&list, &entry(b"a", b"9")),
        vec![entry(b"a", b"9"), entry(b"b", b"2"), entry(b"a", b"9")]
    );
    assert_eq!(
        upsert_entry(&list, &entry(b"c", b"9")),
        vec![entry(b"a", b"1"), entry(b"b", b"2"), entry(b"a", b"3"), entry(b"c", b"9")]
    );
    assert_eq!(upsert_entry(&Vec::new(), &entry(b"c", b"9")), vec![entry(b"c", b"9")]);
    assert_eq!(
        merge_entries(&list, &vec![entry(b"c", b"1"), entry(b"b", b"7"), entry(b"c", b"2")]),
        vec![entry(b"a", b"1"), entry(b"b", b"7"), entry(b"a", b"3"), entry(b"c", b"2")]
    );
    assert_eq!(merge_entries(&list, &Vec::new()), list);
    assert_eq!(find_value(&list, b"a"), Some(b"1".to_vec()));
    assert_eq!(find_value(&list, b"b"), Some(b"2".to_vec()));
    assert_eq!(find_value(&list, b"c"), None);
}

#[test]
fn metadata_sets_the_terms_one_field_at_a_time() {
    let mut services: Store<ServiceKey, AgentServiceConfig> = Store::new();
    sync_pricing_metadata(
        &mut services,
        3,
        &vec![
            entry(b"price:chat", &[1, 2]),
            entry(b"pnonce:chat", &[0, 0, 0, 0, 0, 0, 1, 0]),
            entry(b"name", b"ignored"),
            entry(b"price:chat", &[5]),
            entry(b"token:code", b"USDC-123456"),
        ],
    );
    let chat = read_config(&services, 3, b"chat");
    assert_eq!(chat, AgentServiceConfig { token: native_token_id(), pnonce: 256, price: 5 });
    let code = read_config(&services, 3, b"code");
    assert_eq!(code, AgentServiceConfig { token: b"USDC-123456".to_vec(), pnonce: 0, price: 0 });
    let elsewhere = read_config(&services, 4, b"chat");
    assert_eq!(elsewhere, AgentServiceConfig { token: native_token_id(), pnonce: 0, price: 0 });
}
