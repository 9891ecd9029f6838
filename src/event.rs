use vstd::prelude::*;

verus! {

/// A "new object created" notification, as delivered: each field may be absent.
pub struct EventBridgeEvent {
    pub detail: Option<EventBridgeDetail>,
}

pub struct EventBridgeDetail {
    pub bucket: Option<EventBridgeBucket>,
    pub object: Option<EventBridgeObject>,
}

pub struct EventBridgeBucket {
    pub name: Option<String>,
}

pub struct EventBridgeObject {
    pub key: Option<String>,
    pub size: Option<u64>,
}

/// The object a notification is about.
pub struct ObjectRef {
    pub bucket: String,
    pub key: String,
    pub size_bytes: u64,
}

/// A notification that does not name its object.
#[derive(Debug, Clone, Copy, PartialEq, Eq, Structural)]
pub enum DecodeError {
    /// `detail.bucket.name` is absent.
    MissingBucketName,
    /// `detail.object.key` is absent.
    MissingObjectKey,
}

impl EventBridgeEvent {
    /// `detail.bucket.name`, where present.
    pub open spec fn bucket_name(&self) -> Option<Seq<char>> {
        match self.detail {
            Some(d) => match d.bucket {
                Some(b) => match b.name {
                    Some(n) => Some(n@),
                    None => None,
                },
                None => None,
            },
            None => None,
        }
    }

    /// `detail.object.key`, where present.
    pub open spec fn object_key(&self) -> Option<Seq<char>> {
        match self.detail {
            Some(d) => match d.object {
                Some(o) => match o.key {
                    Some(k) => Some(k@),
                    None => None,
                },
                None => None,
            },
            None => None,
        }
    }

    /// `detail.object.size`, zero where absent.
    pub open spec fn object_size(&self) -> u64 {
        match self.detail {
            Some(d) => match d.object {
                Some(o) => match o.size {
                    Some(n) => n,
                    None => 0,
                },
                None => 0,
            },
            None => 0,
        }
    }

    /// The object that the notification names. The bucket name and the key
    /// are required; a missing size reads as zero.
    pub fn decode(&self) -> (r: Result<ObjectRef, DecodeError>)
        ensures
            self.bucket_name() is None ==> r == Err::<ObjectRef, DecodeError>(
                DecodeError::MissingBucketName,
            ),
            self.bucket_name() is Some && self.object_key() is None ==> r == Err::<
                ObjectRef,
                DecodeError,
            >(DecodeError::MissingObjectKey),
            r is Ok <==> self.bucket_name() is Some && self.object_key() is Some,
            r matches Ok(o) ==> {
                &&& Some(o.bucket@) == self.bucket_name()
                &&& Some(o.key@) == self.object_key()
                &&& o.size_bytes == self.object_size()
            },
    {
        let detail = match &self.detail {
            Some(d) => d,
            None => return Err(DecodeError::MissingBucketName),
        };
        let bucket = match &detail.bucket {
            Some(b) => match &b.name {
                Some(n) => n.clone(),
                None => return Err(DecodeError::MissingBucketName),
            },
            None => return Err(DecodeError::MissingBucketName),
        };
        let object = match &detail.object {
            Some(o) => o,
            None => return Err(DecodeError::MissingObjectKey),
        };
        let key = match &object.key {
            Some(k) => k.clone(),
            None => return Err(DecodeError::MissingObjectKey),
        };
        let size_bytes = match object.size {
            Some(n) => n,
            None => 0,
        };
        Ok(ObjectRef { bucket, key, size_bytes })
    }
}

} // verus!
