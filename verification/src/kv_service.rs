//! The request handling of a key-value service fed through a channel: each
//! command is answered from, or applied to, a string map.

use vstd::prelude::*;
use crate::strmap::StrMap;

verus! {

/// A request to the service.
pub enum KvCommand {
    Get { key: String },
    Put { key: String, value: String },
}

/// The answer to a request.
pub enum KvReply {
    /// The value found for a `Get`, if any.
    Value(Option<String>),
    /// The acknowledgement of a `Put`.
    Stored(bool),
}

/// The service state: one value per key.
pub struct KvServer {
    store: StrMap,
}

impl View for KvServer {
    type V = Map<Seq<char>, Seq<char>>;

    closed spec fn view(&self) -> Map<Seq<char>, Seq<char>> {
        self.store@
    }
}

impl KvServer {
    /// The internal map keeps its keys distinct.
    #[verifier::type_invariant]
    spec fn wf(&self) -> bool {
        self.store.wf()
    }

    /// A service with no keys.
    pub fn new() -> (s: Self)
        ensures
            s@ == Map::<Seq<char>, Seq<char>>::empty(),
    {
        KvServer { store: StrMap::new() }
    }

    /// Answers a `Get` from the map; applies a `Put` and acknowledges it.
    pub fn handle(&mut self, cmd: KvCommand) -> (r: KvReply)
        ensures
            match cmd {
                KvCommand::Get { key } => final(self)@ == old(self)@ && match r {
                    KvReply::Value(Some(v)) => old(self)@.contains_key(key@) && v@ == old(self)@[key@],
                    KvReply::Value(None) => !old(self)@.contains_key(key@),
                    KvReply::Stored(_) => false,
                },
                KvCommand::Put { key, value } => final(self)@ == old(self)@.insert(key@, value@)
                    && r == KvReply::Stored(true),
            },
    {
        proof {
            use_type_invariant(&*self);
        }
        match cmd {
            KvCommand::Get { key } => {
                let found = match self.store.get(key.as_str()) {
                    Some(v) => Some(String::from_str(v.as_str())),
                    None => None,
                };
                KvReply::Value(found)
            },
            KvCommand::Put { key, value } => {
                let mut store = StrMap::new();
                std::mem::swap(&mut store, &mut self.store);
                store.insert(key, value);
                self.store = store;
                KvReply::Stored(true)
            },
        }
    }
}

} // verus!
