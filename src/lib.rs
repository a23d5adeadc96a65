//! Editing of nus3audio sound containers: decoded audio and its conversion
//! to the rates and layouts the console encoders take, WAV files, the state
//! of each sound between its encoded bytes and its decoded audio, the
//! command lines of the external codec and probing tools, the scratch
//! directory they work in, and the container list itself.
pub mod pcm;
pub mod text;
pub mod wavfile;
pub mod codec;
pub mod item;
pub mod tools;
pub mod cache;
pub mod list;
pub mod rect;
