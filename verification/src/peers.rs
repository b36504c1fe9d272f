//! Peers, their addresses, and the keys under which they announce models.

use crate::auth::opt_bytes;
use crate::text::{append_decimal, decimal, opt_text};
use std::str::FromStr;
use vstd::prelude::*;
use vstd::string::*;
use vstd::utf8::encode_utf8;

verus! {

/// The protocol by which nodes identify themselves.
pub const IDENTIFY_PROTOCOL: &'static str = "/conduit/1.0.0";

/// The protocol by which a node asks a peer for one answer.
pub const INFERENCE_PROTOCOL: &'static str = "/conduit/inference/1.0.0";

/// The protocol by which a node asks a peer for a stream.
pub const STREAM_PROTOCOL: &'static str = "/conduit/stream/1.0.0";

/// The bytes of the peer id that `libp2p-identity` reads from a text, or nothing where
/// the text is no peer id.
pub uninterp spec fn peer_of_text(text: Seq<char>) -> Option<Seq<u8>>;

/// The text that `libp2p-identity` writes for the bytes of a peer id, or nothing where
/// the bytes are no peer id.
pub uninterp spec fn text_of_peer(id: Seq<u8>) -> Option<Seq<char>>;

/// The bytes of the address that `multiaddr` reads from a text, or nothing where the
/// text is no address.
pub uninterp spec fn address_of_text(text: Seq<char>) -> Option<Seq<u8>>;

/// Calls `libp2p_identity::PeerId::from_str` and takes the bytes of the id. What it
/// gives is named by `peer_of_text`.
#[verifier::external_body]
fn peer_id_from_str(text: &str) -> (id: Option<Vec<u8>>)
    ensures
        opt_bytes(id) == peer_of_text(text@),
{
    match libp2p_identity::PeerId::from_str(text) {
        Ok(id) => Some(id.to_bytes()),
        Err(_) => None,
    }
}

/// Whether the code and the size at the front of an id take one byte each, as they do in
/// the bytes that `libp2p-identity` gives for any id. An id can also be read from bytes that
/// spell one of them longer; its text is that of the id in its short spelling.
pub open spec fn short_header(id: Seq<u8>) -> bool {
    id.len() >= 2 && id[0] < 128 && id[1] < 128
}

/// Calls `libp2p_identity::PeerId::to_base58` on the id that `PeerId::from_bytes` makes of
/// the bytes. What it gives is named by `text_of_peer`. It is claimed besides that the text
/// it writes is read back, by `PeerId::from_str`, as an id, and as the id with these very
/// bytes where they have a short header.
#[verifier::external_body]
fn peer_id_to_base58(id: &[u8]) -> (text: Option<String>)
    ensures
        opt_text(text) == text_of_peer(id@),
        text matches Some(t) ==> peer_of_text(t@) is Some,
        text matches Some(t) ==> (short_header(id@) ==> peer_of_text(t@) == Some(id@)),
{
    match libp2p_identity::PeerId::from_bytes(id) {
        Ok(id) => Some(id.to_base58()),
        Err(_) => None,
    }
}

/// The address on which a node listens: a TCP port on every interface.
pub open spec fn listen_text(port: u16) -> Seq<char> {
    "/ip4/0.0.0.0/tcp/"@ + decimal(port as nat)
}

/// The bytes of the address on which a node listens.
pub open spec fn listen_bytes(port: u16) -> Seq<u8> {
    seq![4u8, 0u8, 0u8, 0u8, 0u8, 6u8, (port / 256) as u8, (port % 256) as u8]
}

/// Calls `libp2p::Multiaddr::from_str` and takes the bytes of the address. What it
/// gives is named by `address_of_text`. It is claimed besides what the addresses on
/// which a node listens are read as: the code 4 and four bytes for the IPv4 address,
/// then the code 6 and two bytes, the higher first, for the TCP port.
#[verifier::external_body]
fn multiaddr_from_str(text: &str) -> (address: Option<Vec<u8>>)
    ensures
        opt_bytes(address) == address_of_text(text@),
        forall|port: u16| text@ == #[trigger] listen_text(port) ==> opt_bytes(address) == Some(
            listen_bytes(port),
        ),
{
    match libp2p::Multiaddr::from_str(text) {
        Ok(address) => Some(address.to_vec()),
        Err(_) => None,
    }
}

/// Calls `libp2p_kad::RecordKey::new`, which takes the bytes of its argument as the key.
#[verifier::external_body]
fn record_key_new(bytes: &[u8]) -> (key: Vec<u8>)
    ensures
        key@ == bytes@,
{
    libp2p_kad::RecordKey::new(&bytes).to_vec()
}

/// The key under which the providers of a model announce themselves.
pub open spec fn model_key(model: Seq<char>) -> Seq<u8> {
    encode_utf8(model)
}

/// Makes the key under which the providers of a model announce themselves.
pub fn record_key(model: &str) -> (key: Vec<u8>)
    ensures
        key@ == model_key(model@),
{
    record_key_new(model.as_bytes())
}

/// Reads the bytes of a peer id from its text.
pub fn parse_peer(text: &str) -> (id: Option<Vec<u8>>)
    ensures
        opt_bytes(id) == peer_of_text(text@),
{
    peer_id_from_str(text)
}

/// The text of each id of a list, in its order. What is no id is left out.
pub open spec fn peer_texts(ids: Seq<Seq<u8>>) -> Seq<Seq<char>>
    decreases ids.len(),
{
    if ids.len() == 0 {
        Seq::empty()
    } else {
        match text_of_peer(ids.last()) {
            Some(text) => peer_texts(ids.drop_last()).push(text),
            None => peer_texts(ids.drop_last()),
        }
    }
}

/// The bytes of each id of a list.
pub open spec fn id_bytes(ids: Seq<Vec<u8>>) -> Seq<Seq<u8>> {
    ids.map_values(|id: Vec<u8>| id@)
}

/// Whether every id of a list has a short header.
pub open spec fn short_headers(ids: Seq<Vec<u8>>) -> bool {
    forall|j: int| 0 <= j < ids.len() ==> short_header((#[trigger] ids[j])@)
}

/// Writes the text of each id of a list. Every text is read back as an id, and as one of the
/// list where all of them have short headers.
pub fn write_peers(ids: &Vec<Vec<u8>>) -> (written: Vec<String>)
    ensures
        crate::text::texts(written@) == peer_texts(id_bytes(ids@)),
        forall|i: int| 0 <= i < written@.len() ==> peer_of_text(#[trigger] written@[i]@) is Some,
        short_headers(ids@) ==> forall|i: int|
            0 <= i < written@.len() ==> exists|j: int|
                0 <= j < ids@.len() && peer_of_text(#[trigger] written@[i]@) == Some(
                    #[trigger] ids@[j]@,
                ),
{
    let ghost all = id_bytes(ids@);
    let mut written: Vec<String> = Vec::new();
    let mut i: usize = 0;
    assert(all.take(0) =~= Seq::empty());
    assert(crate::text::texts(written@) =~= Seq::empty());
    while i < ids.len()
        invariant
            i <= ids.len(),
            all == id_bytes(ids@),
            crate::text::texts(written@) == peer_texts(all.take(i as int)),
            forall|k: int|
                0 <= k < written@.len() ==> peer_of_text(#[trigger] written@[k]@) is Some,
            short_headers(ids@) ==> forall|k: int|
                0 <= k < written@.len() ==> exists|j: int|
                    0 <= j < ids@.len() && peer_of_text(#[trigger] written@[k]@) == Some(
                        #[trigger] ids@[j]@,
                    ),
        decreases ids.len() - i,
    {
        assert(all.take(i + 1).drop_last() =~= all.take(i as int));
        assert(all.take(i + 1).last() == ids@[i as int]@);
        let ghost before = written@;
        match peer_id_to_base58(ids[i].as_slice()) {
            Some(text) => {
                written.push(text);
                assert(crate::text::texts(written@) =~= crate::text::texts(before).push(text@));
                assert forall|k: int| 0 <= k < written@.len() implies peer_of_text(
                    #[trigger] written@[k]@,
                ) is Some by {
                    if k < before.len() {
                        assert(written@[k] == before[k]);
                    }
                }
                assert forall|k: int|
                    short_headers(ids@) && 0 <= k < written@.len() implies exists|j: int|
                    0 <= j < ids@.len() && peer_of_text(#[trigger] written@[k]@) == Some(
                        #[trigger] ids@[j]@,
                    ) by {
                    if k < before.len() {
                        assert(written@[k] == before[k]);
                    } else {
                        assert(short_header(ids@[i as int]@));
                        assert(peer_of_text(written@[k]@) == Some(ids@[i as int]@));
                    }
                }
            },
            None => {},
        }
        i = i + 1;
    }
    assert(all.take(i as int) =~= all);
    written
}

/// Writes the address on which a node listens.
pub fn listen_address(port: u16) -> (text: String)
    ensures
        text@ == listen_text(port),
{
    let mut text = "/ip4/0.0.0.0/tcp/".to_owned();
    append_decimal(&mut text, port as u64);
    text
}

/// Reads the bytes of an address from its text.
pub fn parse_address(text: &str) -> (address: Option<Vec<u8>>)
    ensures
        opt_bytes(address) == address_of_text(text@),
        forall|port: u16| text@ == #[trigger] listen_text(port) ==> opt_bytes(address) == Some(
            listen_bytes(port),
        ),
{
    multiaddr_from_str(text)
}

/// Two models have the same key exactly if they have the same name: a lookup finds the
/// providers of the model that was asked for and of no other.
pub proof fn lookup_finds_the_exact_model(asked: Seq<char>, announced: Seq<char>)
    ensures
        model_key(asked) == model_key(announced) <==> asked == announced,
{
    vstd::utf8::encode_utf8_decode_utf8(asked);
    vstd::utf8::encode_utf8_decode_utf8(announced);
}

/// The key of a model is its name in UTF-8.
pub proof fn key_is_the_name_of_the_model(model: &str, key: Vec<u8>)
    requires
        call_ensures(record_key, (model,), key),
    ensures
        key@ == encode_utf8(model@),
{
}

/// A node listens on its TCP port, on every interface: the address reads as the code of IPv4
/// with four zeros, and the code of TCP with the two bytes of the port.
pub proof fn node_listens_on_its_port(
    port: u16,
    written: String,
    text: &str,
    address: Option<Vec<u8>>,
)
    requires
        call_ensures(listen_address, (port,), written),
        text@ == written@,
        call_ensures(parse_address, (text,), address),
    ensures
        written@ == "/ip4/0.0.0.0/tcp/"@ + decimal(port as nat),
        address matches Some(bytes) && {
            &&& bytes@.len() == 8
            &&& bytes@[0] == 4
            &&& bytes@[1] == 0 && bytes@[2] == 0 && bytes@[3] == 0 && bytes@[4] == 0
            &&& bytes@[5] == 6
            &&& bytes@[6] * 256 + bytes@[7] == port
        },
{
    assert(text@ == listen_text(port));
}

proof fn texts_follow_the_ids(ids: Seq<Seq<u8>>)
    requires
        forall|i: int| 0 <= i < ids.len() ==> text_of_peer(#[trigger] ids[i]) is Some,
    ensures
        peer_texts(ids).len() == ids.len(),
        forall|i: int|
            0 <= i < ids.len() ==> Some(#[trigger] peer_texts(ids)[i]) == text_of_peer(ids[i]),
    decreases ids.len(),
{
    if ids.len() > 0 {
        let rest = ids.drop_last();
        assert forall|i: int| 0 <= i < rest.len() implies text_of_peer(
            #[trigger] rest[i],
        ) is Some by {
            assert(rest[i] == ids[i]);
        }
        texts_follow_the_ids(rest);
        assert(text_of_peer(ids[ids.len() - 1]) is Some);
        assert forall|i: int| 0 <= i < ids.len() implies Some(#[trigger] peer_texts(ids)[i])
            == text_of_peer(ids[i]) by {
            if i < rest.len() {
                assert(peer_texts(ids)[i] == peer_texts(rest)[i]);
            }
        }
    }
}

/// The peers that were found are written in their order, none left out and none twice.
pub proof fn every_peer_is_written(ids: Vec<Vec<u8>>, written: Vec<String>)
    requires
        call_ensures(write_peers, (&ids,), written),
        forall|i: int| 0 <= i < ids@.len() ==> text_of_peer(#[trigger] ids@[i]@) is Some,
    ensures
        written@.len() == ids@.len(),
        forall|i: int|
            0 <= i < written@.len() ==> Some(#[trigger] written@[i]@) == text_of_peer(ids@[i]@),
{
    let all = id_bytes(ids@);
    assert forall|i: int| 0 <= i < all.len() implies text_of_peer(#[trigger] all[i]) is Some by {
        assert(all[i] == ids@[i]@);
    }
    texts_follow_the_ids(all);
    assert(crate::text::texts(written@).len() == written@.len());
    assert forall|i: int| 0 <= i < written@.len() implies Some(#[trigger] written@[i]@)
        == text_of_peer(ids@[i]@) by {
        assert(crate::text::texts(written@)[i] == written@[i]@);
        assert(peer_texts(all)[i] == written@[i]@);
        assert(all[i] == ids@[i]@);
    }
}

proof fn texts_of_both(first: Seq<Seq<u8>>, second: Seq<Seq<u8>>)
    ensures
        peer_texts(first + second) == peer_texts(first) + peer_texts(second),
    decreases second.len(),
{
    if second.len() == 0 {
        assert(first + second =~= first);
        assert(peer_texts(first) + peer_texts(second) =~= peer_texts(first));
    } else {
        texts_of_both(first, second.drop_last());
        assert((first + second).drop_last() =~= first + second.drop_last());
        assert(peer_texts(first + second) =~= peer_texts(first) + peer_texts(second));
    }
}

/// What is written for a peer does not hang on the peers around it: the texts of two lists
/// one after the other are the texts of the first and then those of the second.
pub proof fn peers_are_written_one_by_one(
    first: Vec<Vec<u8>>,
    second: Vec<Vec<u8>>,
    both: Vec<Vec<u8>>,
    first_written: Vec<String>,
    second_written: Vec<String>,
    written: Vec<String>,
)
    requires
        both@ == first@ + second@,
        call_ensures(write_peers, (&first,), first_written),
        call_ensures(write_peers, (&second,), second_written),
        call_ensures(write_peers, (&both,), written),
    ensures
        written@.len() == first_written@.len() + second_written@.len(),
        forall|i: int|
            0 <= i < first_written@.len() ==> (#[trigger] written@[i])@ == first_written@[i]@,
        forall|i: int|
            0 <= i < second_written@.len() ==> written@[first_written@.len() + i]@ == (
            #[trigger] second_written@[i])@,
{
    assert(id_bytes(both@) =~= id_bytes(first@) + id_bytes(second@));
    texts_of_both(id_bytes(first@), id_bytes(second@));
    let a = crate::text::texts(first_written@);
    let b = crate::text::texts(second_written@);
    let c = crate::text::texts(written@);
    assert(c == a + b);
    assert(c.len() == written@.len() && a.len() == first_written@.len() && b.len()
        == second_written@.len());
    assert forall|i: int| 0 <= i < first_written@.len() implies (#[trigger] written@[i])@
        == first_written@[i]@ by {
        assert(c[i] == a[i]);
    }
    assert forall|i: int| 0 <= i < second_written@.len() implies written@[first_written@.len()
        + i]@ == (#[trigger] second_written@[i])@ by {
        assert(c[a.len() + i] == b[i]);
    }
}

/// What is no id is not written.
pub proof fn only_ids_are_written(ids: Vec<Vec<u8>>, written: Vec<String>)
    requires
        call_ensures(write_peers, (&ids,), written),
        ids@.len() == 1,
        text_of_peer(ids@[0]@) is None,
    ensures
        written@.len() == 0,
{
    let all = id_bytes(ids@);
    assert(all.last() == ids@[0]@);
    assert(peer_texts(all.drop_last()).len() == 0);
    assert(crate::text::texts(written@).len() == written@.len());
}

/// The protocols by which nodes of the same version speak to each other.
pub proof fn protocols_have_their_names()
    ensures
        IDENTIFY_PROTOCOL@ == "/conduit/1.0.0"@,
        INFERENCE_PROTOCOL@ == "/conduit/inference/1.0.0"@,
        STREAM_PROTOCOL@ == "/conduit/stream/1.0.0"@,
{
}

} // verus!
