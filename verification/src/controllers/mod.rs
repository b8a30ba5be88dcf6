//! What the relay answers to each request, decided from plain values; the
//! transport around these decisions lives outside the library.

pub mod oauth;
