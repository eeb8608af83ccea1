pub mod emitter;
