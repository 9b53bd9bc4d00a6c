//! Client library for exchanging structured values and event streams with a
//! local device-management runtime.
//!
//! The library holds the runtime-independent core: the status taxonomy, the
//! dynamic value model, and the client state machine that turns calls into
//! requests for a transport and turns the transport's answers and deliveries
//! into results and callback invocations.
//!
//! Values come in three regimes over one model: an owned `Object` tree, the
//! shared view `UnpackedObject` that `Object::unpack` borrows from it without
//! copying, and exclusive borrows (`&mut Object`, `Kv::val_mut`) for replacing
//! children in place. `to_owned` turns any of them into a fresh owned tree.

mod error;
mod ipc;
mod object;

pub use error::{
    error_text, lemma_result_round_trip, lemma_status_round_trip, result_of_status, status_of_result, Error,
    Status,
};
pub use ipc::{
    close_step, config_str_from_reply, connect_refusal, connect_step, decode_key_path, delivery_target,
    handle_of, key_path_to_buf_list, lemma_closed_subscription_is_silent, lemma_connect_once,
    register_step, subscription_wf, ComponentState, IpcError, KeyPath, Qos, Request, Response, Sdk,
    SubscribeToTopicPayload, Subscription, Timestamp, TopicDelivery, MAX_KEY_PATH_LEN,
    MAX_OBJECT_DEPTH,
};
pub use object::{
    first_key_at, is_unpacked, items_view, key_absent, lemma_items_view,
    lemma_owned_copy_unpacks_equal, lemma_pairs_view, lemma_unpack_scalar, lemma_unpacked_view,
    pairs_view, Kv, KvMap, List, Object, UnpackedObject, UnpackedObjectMut, Value,
};
