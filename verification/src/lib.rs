pub mod midi_message;
