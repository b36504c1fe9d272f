use conduit::peers::{listen_address, parse_address, parse_peer, record_key, write_peers};
use libp2p_identity::{Keypair, PeerId};

const PEER: &str = "QmYyQSo1c1Ym7orWxLYvCrM2EmxFTANf8wXmmE7DWjhx5N";

#[test]
fn reads_a_peer_id() {
    let id = parse_peer(PEER).unwrap();
    assert_eq!(id.len(), 34);
    assert_eq!(id[..2], [0x12, 0x20]);
    assert_eq!(parse_peer("no peer"), None);
    assert_eq!(parse_peer(""), None);
}

#[test]
fn writes_peer_ids_that_read_back() {
    let id = parse_peer(PEER).unwrap();
    let other = PeerId::from(Keypair::generate_ed25519().public());
    let written = write_peers(&vec![id.clone(), vec![1, 2, 3], other.to_bytes()]);
    assert_eq!(written, vec![PEER.to_string(), other.to_string()]);
    assert_eq!(parse_peer(&written[0]), Some(id));
    assert_eq!(parse_peer(&written[1]), Some(other.to_bytes()));
}

#[test]
fn id_in_a_long_spelling_reads_back_in_the_short_one() {
    let id = parse_peer(PEER).unwrap();
    let mut long = vec![0x92, 0x80, 0x80, 0x80, 0x80, 0x80, 0x80, 0x80, 0x80, 0x02];
    long.extend_from_slice(&id[1..]);
    let written = write_peers(&vec![long.clone()]);
    assert_eq!(written, vec![PEER.to_string()]);
    assert_eq!(parse_peer(&written[0]), Some(id.clone()));
    assert_ne!(id, long);
}

#[test]
fn reads_addresses() {
    assert_eq!(listen_address(8000), "/ip4/0.0.0.0/tcp/8000");
    assert_eq!(parse_address("/ip4/0.0.0.0/tcp/8000"), Some(vec![4, 0, 0, 0, 0, 6, 31, 64]));
    assert_eq!(parse_address(&listen_address(0)), Some(vec![4, 0, 0, 0, 0, 6, 0, 0]));
    assert_eq!(parse_address(&listen_address(65535)), Some(vec![4, 0, 0, 0, 0, 6, 255, 255]));
    assert_eq!(
        parse_address("/ip4/172.232.46.58/tcp/1334"),
        Some(vec![4, 172, 232, 46, 58, 6, 5, 54])
    );
    assert_eq!(parse_address("127.0.0.1:8000"), None);
    assert_eq!(parse_address("/ip4/300.0.0.1/tcp/1"), None);
}

#[test]
fn model_keys_are_the_bytes_of_the_name() {
    assert_eq!(record_key("llama-3"), b"llama-3".to_vec());
    assert_eq!(record_key("é"), vec![0xc3, 0xa9]);
    assert_ne!(record_key("llama-3"), record_key("Llama-3"));
}
