[package]
name = "flutter_drm"
version = "0.1.0"
edition = "2021"
publish = false

[dependencies]
smithay = { version = "=0.3.0", default-features = false, features = ["backend_drm", "backend_gbm", "backend_egl", "backend_libinput", "backend_udev", "backend_session", "backend_winit", "renderer_gl"] }
winit = "0.25"
log = "=0.4.34"
parking_lot = "=0.13.0"
crossbeam = "=0.8.5"
xkbcommon = "=0.4.1"
flutter-engine = "=0.3.5"
flutter-plugins = "=0.3.5"
