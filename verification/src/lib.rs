//! The logic of an askpass helper for SSH under Windows, verified with Verus.
//!
//! An SSH client hands such a helper a prompt and expects the answer on
//! standard output. The prompt either asks to confirm a host key or asks for
//! the passphrase of a private key. A passphrase that the user chose to have
//! remembered is kept in the credential store of the system and released from
//! there, provided that the user was verified not long ago or is verified
//! now.
//!
//! This library decides; it does not act. It tells the kind of a prompt
//! (`dispatch`), derives the identifier of the key (`key_name`), names the
//! records of a key (`names`), builds what is written to the store and
//! interprets what is read from it (`store`, `cache`, `gate`, `decimal`), and
//! runs the whole exchange as a state machine (`flow`, with what holds of it
//! in `runs`). Reading and writing the store, showing dialogs and asking the
//! biometric service are left to the program around it, which needs `wide`
//! to hand text to the system and to take text from it.

pub mod cache;
pub mod decimal;
pub mod dispatch;
pub mod flow;
pub mod gate;
pub mod key_name;
pub mod names;
pub mod runs;
pub mod store;
pub mod text;
pub mod wide;
