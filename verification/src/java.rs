//! The bridge to the JVM: commands sent to the JVM worker, the framing of
//! buffers handed to Java, and the event manager on the Java side.
pub mod commands;
pub mod event_manager;
pub mod framing;
pub mod lifecycle;
