/// Preparing the handshake with the provider and ending the opening of a session.
pub mod connection;
/// What the presentation layer is told: transcripts and changes of the connection.
pub mod events;
/// Why a session did not start or a chunk was not taken, and how failures are told apart.
pub mod failure;
/// JSON documents as plain data.
pub mod json;
/// What a session is started with, and the address that follows from it.
pub mod params;
/// The bounded queue of audio chunks.
pub mod queue;
/// The state that the caller and the two pipelines share, and what each of them does next.
pub mod session;
/// What holds of the session state whatever is called on it.
pub mod session_lemmas;
/// Strings and bytes.
pub mod text;
/// From a message of the provider to a transcript.
pub mod transcript;
