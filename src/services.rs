//! The event dispatcher: which stream a message belongs to.

use vstd::prelude::*;

use crate::proto::{DropEvent, EventKey, TreasuryEvent};

verus! {

/// The topic of the drop-lifecycle stream.
pub const NFTS_TOPIC: &'static str = "hub-nfts";

/// The topic of the custody stream.
pub const TREASURIES_TOPIC: &'static str = "hub-treasuries";

/// A decoded inbound message, by stream.
#[derive(Debug)]
pub enum Services {
    Nfts(EventKey, Option<DropEvent>),
    Treasuries(EventKey, Option<TreasuryEvent>),
}

/// The stream that a topic belongs to.
#[derive(Debug, Clone, Copy, PartialEq, Eq, Structural)]
pub enum Topic {
    Nfts,
    Treasuries,
}

/// Why an inbound message could not be read.
#[derive(Debug)]
pub enum RecvError {
    MissingKey,
    MissingPayload,
    BadTopic(String),
    /// The key or the payload does not decode as the stream's schema says.
    Decode,
}

/// A message whose stream is known and whose key and payload are present, still encoded.
#[derive(Debug)]
pub struct RawMessage {
    pub topic: Topic,
    pub key: Vec<u8>,
    pub payload: Vec<u8>,
}

pub open spec fn topic_of(t: Seq<char>) -> Option<Topic> {
    if t == NFTS_TOPIC@ {
        Some(Topic::Nfts)
    } else if t == TREASURIES_TOPIC@ {
        Some(Topic::Treasuries)
    } else {
        None
    }
}

impl Services {
    /// The topics that this service subscribes to.
    pub fn requested_topics() -> (r: Vec<String>)
        ensures
            r@.len() == 2,
            r@[0]@ == NFTS_TOPIC@,
            r@[1]@ == TREASURIES_TOPIC@,
    {
        let mut v: Vec<String> = Vec::new();
        v.push(String::from_str(NFTS_TOPIC));
        v.push(String::from_str(TREASURIES_TOPIC));
        v
    }

    /// Checks that a message has a key and a payload, and tells its stream by its topic.
    pub fn route_message(topic: &String, key: Option<Vec<u8>>, payload: Option<Vec<u8>>) -> (r:
        Result<RawMessage, RecvError>)
        ensures
            key is None ==> r matches Err(RecvError::MissingKey),
            key is Some && payload is None ==> r matches Err(RecvError::MissingPayload),
            key is Some && payload is Some ==> match topic_of(topic@) {
                None => r matches Err(RecvError::BadTopic(t)) && t@ == topic@,
                Some(s) => r matches Ok(m) && m.topic == s && m.key == key.unwrap()
                    && m.payload == payload.unwrap(),
            },
    {
        let key = match key {
            None => return Err(RecvError::MissingKey),
            Some(k) => k,
        };
        let payload = match payload {
            None => return Err(RecvError::MissingPayload),
            Some(p) => p,
        };
        let nfts = String::from_str(NFTS_TOPIC);
        let treasuries = String::from_str(TREASURIES_TOPIC);
        if *topic == nfts {
            Ok(RawMessage { topic: Topic::Nfts, key, payload })
        } else if *topic == treasuries {
            Ok(RawMessage { topic: Topic::Treasuries, key, payload })
        } else {
            Err(RecvError::BadTopic(topic.clone()))
        }
    }
}

} // verus!
