[package]
name = "audio_relay"
version = "0.1.0"
edition = "2021"
publish = false

[dependencies]
byteorder = "1"
byte-slice-cast = "0.3"
gstreamer = "0.15"
gstreamer-app = "0.15"
gstreamer-audio = "0.15"
winapi = { version = "0.3", features = ["audioclient", "audiosessiontypes", "combaseapi", "minwindef", "mmdeviceapi", "mmreg", "objbase", "strmif", "winerror"] }
