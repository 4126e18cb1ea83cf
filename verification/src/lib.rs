//! WebSocket protocol engine: opening handshake, frame codec, incremental
//! frame reader and the per-connection state machine, with machine-checked
//! contracts.

pub mod buffer;
pub mod codec;
pub mod codec_laws;
pub mod connection;
pub mod connection_laws;
pub mod cursor;
pub mod digest;
pub mod error;
pub mod frame;
pub mod handshake;
pub mod headers;
pub mod mask;
pub mod message;
pub mod opcode;
pub mod reader;
pub mod text;

pub use codec::DecodeModel;
pub use codec::DecodeResult;
pub use connection::Connection;
pub use connection::ConnectionState;
pub use error::ProtocolError;
pub use error::WsError;
pub use frame::FrameModel;
pub use frame::WebsocketFrame;
pub use handshake::handshake;
pub use message::Event;
pub use message::Message;
pub use opcode::OpCode;
pub use reader::FrameReader;
