use std::collections::HashMap;

use image_archiver::event::{
    DecodeError, EventBridgeBucket, EventBridgeDetail, EventBridgeEvent, EventBridgeObject,
};
use image_archiver::pipeline::{
    Action, FailureCause, FetchResult, GatewayCall, GatewayEvent, Phase, Pipeline,
    PipelineOutcome, PutResult, Retry, Stage, StorageTier, TransitionResult,
};
use image_archiver::transform::TransformError;

#[derive(Debug, Clone, PartialEq)]
enum Logged {
    Fetch(String),
    Put(String),
    Transition(String),
}

/// An in-memory bucket store that records each call made on it.
struct FakeStore {
    objects: HashMap<(String, String), (Vec<u8>, StorageTier)>,
    log: Vec<Logged>,
    fail_transition: bool,
    fail_put: bool,
    already_in_tier: Vec<bool>,
}

impl FakeStore {
    fn new() -> FakeStore {
        FakeStore { objects: HashMap::new(), log: Vec::new(), fail_transition: false, fail_put: false, already_in_tier: Vec::new() }
    }

    fn insert(&mut self, bucket: &str, key: &str, bytes: Vec<u8>) {
        self.objects.insert((bucket.to_string(), key.to_string()), (bytes, StorageTier::Standard));
    }

    fn perform(&mut self, call: GatewayCall) -> GatewayEvent {
        match call {
            GatewayCall::Fetch { bucket, key } => {
                self.log.push(Logged::Fetch(key.clone()));
                match self.objects.get(&(bucket, key)) {
                    Some((bytes, _)) => GatewayEvent::Fetch(FetchResult::Fetched(bytes.clone())),
                    None => GatewayEvent::Fetch(FetchResult::NotFound),
                }
            }
            GatewayCall::Put { bucket, key, bytes } => {
                self.log.push(Logged::Put(key.clone()));
                if self.fail_put {
                    return GatewayEvent::Put(PutResult::Transient);
                }
                self.objects.insert((bucket, key), (bytes, StorageTier::Standard));
                GatewayEvent::Put(PutResult::Stored)
            }
            GatewayCall::Transition { bucket, key, copy_source, tier } => {
                self.log.push(Logged::Transition(key.clone()));
                assert_eq!(copy_source, format!("{}%2F{}", bucket, key.replace('/', "%2F")));
                if self.fail_transition {
                    return GatewayEvent::Transition(TransitionResult::Transient);
                }
                match self.objects.get_mut(&(bucket, key)) {
                    Some(entry) if entry.1 == tier => {
                        self.already_in_tier.push(true);
                        GatewayEvent::Transition(TransitionResult::AlreadyInTier)
                    }
                    Some(entry) => {
                        self.already_in_tier.push(false);
                        entry.1 = tier;
                        GatewayEvent::Transition(TransitionResult::Transitioned)
                    }
                    None => GatewayEvent::Transition(TransitionResult::Transient),
                }
            }
        }
    }

    fn run(&mut self, event: &EventBridgeEvent) -> PipelineOutcome {
        let (mut p, mut action) = Pipeline::start(event);
        loop {
            match action {
                Action::Finish(outcome) => return outcome,
                Action::Call(call) => {
                    let answer = self.perform(call);
                    assert!(p.accepts(&answer));
                    let next = p.step(answer);
                    p = next.0;
                    action = next.1;
                }
            }
        }
    }
}

fn event(bucket: Option<&str>, key: Option<&str>, size: Option<u64>) -> EventBridgeEvent {
    EventBridgeEvent {
        detail: Some(EventBridgeDetail {
            bucket: Some(EventBridgeBucket { name: bucket.map(|b| b.to_string()) }),
            object: Some(EventBridgeObject { key: key.map(|k| k.to_string()), size }),
        }),
    }
}

fn jpeg(width: u32, height: u32) -> Vec<u8> {
    let img = image::RgbImage::from_fn(width, height, |x, y| image::Rgb([(x * 3) as u8, (y * 11) as u8, 40]));
    let mut out: Vec<u8> = Vec::new();
    image::codecs::jpeg::JpegEncoder::new_with_quality(&mut out, 90)
        .encode(img.as_raw(), width, height, image::ColorType::Rgb8)
        .unwrap();
    out
}

#[test]
fn decode_reads_all_fields() {
    let o = event(Some("bkt"), Some("a/b.png"), Some(1234)).decode().unwrap();
    assert_eq!((o.bucket.as_str(), o.key.as_str(), o.size_bytes), ("bkt", "a/b.png", 1234));
}

#[test]
fn decode_tolerates_missing_size() {
    let o = event(Some("bkt"), Some("k.jpg"), None).decode().unwrap();
    assert_eq!(o.size_bytes, 0);
}

#[test]
fn decode_missing_key_is_error() {
    let r = event(Some("bkt"), None, Some(5)).decode();
    assert_eq!(r.err(), Some(DecodeError::MissingObjectKey));
    let no_object = EventBridgeEvent {
        detail: Some(EventBridgeDetail {
            bucket: Some(EventBridgeBucket { name: Some("bkt".to_string()) }),
            object: None,
        }),
    };
    assert_eq!(no_object.decode().err(), Some(DecodeError::MissingObjectKey));
}

#[test]
fn decode_missing_bucket_is_error() {
    assert_eq!(event(None, Some("k"), None).decode().err(), Some(DecodeError::MissingBucketName));
    let empty = EventBridgeEvent { detail: None };
    assert_eq!(empty.decode().err(), Some(DecodeError::MissingBucketName));
}

#[test]
fn missing_key_aborts_without_storage_calls() {
    let mut store = FakeStore::new();
    let outcome = store.run(&event(Some("bkt"), None, Some(5)));
    assert_eq!(
        outcome,
        PipelineOutcome::Failed {
            stage: Stage::Decoding,
            cause: FailureCause::Decode(DecodeError::MissingObjectKey),
        }
    );
    assert!(store.log.is_empty());
}

#[test]
fn end_to_end_large_jpeg_is_previewed_and_archived() {
    let mut store = FakeStore::new();
    store.insert("bkt", "incoming/pic.png", jpeg(4000, 3000));
    let outcome = store.run(&event(Some("bkt"), Some("incoming/pic.png"), Some(10)));
    assert_eq!(outcome, PipelineOutcome::Success);
    assert_eq!(
        store.log,
        vec![
            Logged::Fetch("incoming/pic.png".to_string()),
            Logged::Put("thumbnail/incoming/pic.jpeg".to_string()),
            Logged::Transition("incoming/pic.png".to_string()),
        ]
    );
    let (preview, tier) = &store.objects[&("bkt".to_string(), "thumbnail/incoming/pic.jpeg".to_string())];
    assert_eq!(*tier, StorageTier::Standard);
    let img = image::load_from_memory(preview).unwrap();
    assert_eq!(image::guess_format(preview).unwrap(), image::ImageFormat::Jpeg);
    assert_eq!((img.width(), img.height()), (960, 720));
    let (_, source_tier) = &store.objects[&("bkt".to_string(), "incoming/pic.png".to_string())];
    assert_eq!(*source_tier, StorageTier::DeepArchive);
}

#[test]
fn redelivery_gives_same_preview_and_noop_transition() {
    let mut store = FakeStore::new();
    store.insert("bkt", "incoming/pic.png", jpeg(2000, 1500));
    let ev = event(Some("bkt"), Some("incoming/pic.png"), None);
    let first = store.run(&ev);
    let key = ("bkt".to_string(), "thumbnail/incoming/pic.jpeg".to_string());
    let preview1 = store.objects[&key].0.clone();
    let second = store.run(&ev);
    let preview2 = store.objects[&key].0.clone();
    assert_eq!(first, PipelineOutcome::Success);
    assert_eq!(second, PipelineOutcome::Success);
    assert_eq!(preview1, preview2);
    let img = image::load_from_memory(&preview2).unwrap();
    assert_eq!((img.width(), img.height()), (960, 720));
    assert_eq!(store.already_in_tier, vec![false, true]);
    assert_eq!(store.log.len(), 6);
    assert_eq!(store.log[1], store.log[4]);
}

#[test]
fn failed_transition_comes_after_put() {
    let mut store = FakeStore::new();
    store.fail_transition = true;
    store.insert("bkt", "x.jpg", jpeg(32, 32));
    let outcome = store.run(&event(Some("bkt"), Some("x.jpg"), None));
    assert_eq!(
        outcome,
        PipelineOutcome::Failed { stage: Stage::Transitioning, cause: FailureCause::Transient }
    );
    assert_eq!(store.log[1], Logged::Put("thumbnail/x.jpeg".to_string()));
    assert_eq!(store.log[2], Logged::Transition("x.jpg".to_string()));
    assert!(store.objects.contains_key(&("bkt".to_string(), "thumbnail/x.jpeg".to_string())));
}

#[test]
fn failed_put_leaves_source_untouched() {
    let mut store = FakeStore::new();
    store.fail_put = true;
    store.insert("bkt", "x.jpg", jpeg(32, 32));
    let outcome = store.run(&event(Some("bkt"), Some("x.jpg"), None));
    assert_eq!(
        outcome,
        PipelineOutcome::Failed { stage: Stage::Uploading, cause: FailureCause::Transient }
    );
    assert_eq!(store.log.len(), 2);
    assert_eq!(store.objects[&("bkt".to_string(), "x.jpg".to_string())].1, StorageTier::Standard);
}

#[test]
fn missing_object_is_permanent_failure() {
    let mut store = FakeStore::new();
    let outcome = store.run(&event(Some("bkt"), Some("gone.png"), None));
    assert_eq!(outcome, PipelineOutcome::Failed { stage: Stage::Fetching, cause: FailureCause::NotFound });
    assert_eq!(FailureCause::NotFound.retry(), Retry::Permanent);
    assert_eq!(store.log.len(), 1);
}

#[test]
fn bad_image_is_permanent_failure() {
    let mut store = FakeStore::new();
    store.insert("bkt", "notes.txt", b"plain text".to_vec());
    let outcome = store.run(&event(Some("bkt"), Some("notes.txt"), None));
    let expected = PipelineOutcome::Failed {
        stage: Stage::Transforming,
        cause: FailureCause::Image(TransformError::UnsupportedFormat),
    };
    assert_eq!(outcome, expected);
    assert_eq!(FailureCause::Image(TransformError::CorruptData).retry(), Retry::Permanent);
    assert_eq!(store.log.len(), 1);
}

#[test]
fn transient_fetch_is_retryable() {
    let ev = event(Some("bkt"), Some("k.png"), None);
    let (p, _) = Pipeline::start(&ev);
    let answer = GatewayEvent::Fetch(FetchResult::Transient);
    assert!(p.accepts(&answer));
    let (p, action) = p.step(answer);
    let failed = PipelineOutcome::Failed { stage: Stage::Fetching, cause: FailureCause::Transient };
    assert!(matches!(action, Action::Finish(o) if o == failed));
    assert!(matches!(p.phase, Phase::Done(o) if o == failed));
    assert_eq!(FailureCause::Transient.retry(), Retry::Retryable);
}

#[test]
fn pipeline_rejects_out_of_order_answer() {
    let ev = event(Some("bkt"), Some("k.png"), None);
    let (p, _) = Pipeline::start(&ev);
    assert!(!p.accepts(&GatewayEvent::Put(PutResult::Stored)));
    assert!(!p.accepts(&GatewayEvent::Transition(TransitionResult::Transitioned)));
}
