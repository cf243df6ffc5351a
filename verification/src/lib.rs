//! Verified core of a VR client that streams an H.264 camera feed and the
//! head orientation to a PC, and draws one viewport per eye.
//!
//! The platform work (camera, encoder, sensors, sockets, EGL/GL, JNI) is
//! done by the host program; this library holds the wire formats and the
//! decisions that the host's loops follow.
pub mod protocolo;
pub mod estereo;
pub mod transmision;
pub mod codificador;
pub mod ciclo;
