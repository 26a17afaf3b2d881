[package]
name = "gtk_extras"
version = "0.1.0"
edition = "2021"
publish = false

[dependencies]
uuid = "1"
log = "0.4"
glib = "0.18"
gio = "0.18"
gdk = "0.18"
gtk = "0.18"
