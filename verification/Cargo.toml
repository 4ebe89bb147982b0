[package]
name = "music_player"
version = "0.1.0"
edition = "2021"
publish = false

[dependencies]
crossbeam = "=0.6.0"
gdk-pixbuf = "0.4.0"
gio = "0.4.1"
gstreamer = "0.11.6"
gtk = "0.4.1"
gtk-sys = "0.6.0"
id3 = "=1.17.2"
libc = "0.2"
pulse-simple = "=1.0.1"
simplemad = "=0.9.0"
