use iotcraft_client::publishing::{
    chunk_topic, chunk_world_data, fits_in_one_message, split_into_chunks, MAX_CHUNKS,
    MAX_MQTT_MESSAGE_SIZE, TARGET_CHUNK_DATA_SIZE,
};
use std::io::Read;

#[test]
fn limits() {
    assert_eq!(MAX_MQTT_MESSAGE_SIZE, 1_048_576);
    assert_eq!(TARGET_CHUNK_DATA_SIZE, 629_145);
    assert_eq!(MAX_CHUNKS, 1000);
    assert!(fits_in_one_message(1_048_576));
    assert!(!fits_in_one_message(1_048_577));
    assert_eq!(chunk_topic("castle_1"), "iotcraft/worlds/castle_1/data/chunk");
}

#[test]
fn small_world_is_one_chunk_that_inflates_back() {
    let serialized = br#"{"blocks":[{"x":1,"y":2,"z":3,"block_type":"Stone"},{"x":1,"y":2,"z":4,"block_type":"Stone"}]}"#.repeat(20);
    let chunks = chunk_world_data(&serialized, "castle", 1_700_000_000_123).unwrap();
    assert_eq!(chunks.len(), 1);
    let chunk = &chunks[0];
    assert_eq!(chunk.chunk_id, "castle_1700000000123");
    assert_eq!(chunk.world_id, "castle");
    assert_eq!(chunk.chunk_index, 0);
    assert_eq!(chunk.total_chunks, 1);
    // The data is compressed: shorter than the input, and it inflates back.
    assert!(chunk.data.len() < serialized.len());
    let mut inflated = Vec::new();
    flate2::read::DeflateDecoder::new(chunk.data.as_slice()).read_to_end(&mut inflated).unwrap();
    assert_eq!(inflated, serialized);
}

#[test]
fn oversized_chunks_are_cut_until_they_fit() {
    // Every byte 255 takes four characters in JSON, so a full chunk is far
    // over the limit and is cut by a tenth again and again until it fits.
    let compressed = vec![255u8; 700_000];
    let chunks = split_into_chunks(&compressed, "w_1", "w").unwrap();
    let sizes: Vec<usize> = chunks.iter().map(|c| c.data.len()).collect();
    assert_eq!(sizes, vec![243_740, 242_473, 213_787]);
    assert!(chunks.iter().all(|c| c.total_chunks == 3));
    assert_eq!(chunks[2].chunk_index, 2);
    for c in &chunks {
        let mut m = serde_json::Map::new();
        m.insert("chunk_id".to_string(), serde_json::Value::from(c.chunk_id.as_str()));
        m.insert("chunk_index".to_string(), serde_json::Value::from(c.chunk_index));
        m.insert("total_chunks".to_string(), serde_json::Value::from(c.total_chunks));
        m.insert("data".to_string(), serde_json::Value::from(c.data.clone()));
        m.insert("world_id".to_string(), serde_json::Value::from(c.world_id.as_str()));
        let len = serde_json::to_vec(&serde_json::Value::Object(m)).unwrap().len();
        assert!(len <= MAX_MQTT_MESSAGE_SIZE);
    }
    let joined: Vec<u8> = chunks.iter().flat_map(|c| c.data.iter().copied()).collect();
    assert_eq!(joined, compressed);
}

#[test]
fn small_chunk_that_cannot_fit_is_an_error() {
    let world_id = "w".repeat(1_100_000);
    let compressed = vec![7u8; 50];
    let err = split_into_chunks(&compressed, "c", &world_id).err().unwrap();
    // {"chunk_id":"c","chunk_index":0,"data":[7,...],"total_chunks":0,"world_id":"w..."}
    let json_len = 172 + world_id.len();
    assert_eq!(err, format!("Cannot create chunk small enough: {} bytes minimum", json_len));
}

#[test]
fn empty_data_gives_no_chunks() {
    assert!(split_into_chunks(&[], "c", "w").unwrap().is_empty());
}
