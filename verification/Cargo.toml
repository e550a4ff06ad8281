[package]
name = "smallvil"
version = "0.1.0"
edition = "2021"
publish = false

[dependencies]
smithay = { version = "=0.7.0", default-features = false, features = ["backend_drm", "backend_egl", "backend_gbm", "backend_libinput", "backend_session", "backend_winit", "desktop", "renderer_gl", "renderer_multi", "wayland_frontend"] }
smithay-drm-extras = { version = "=0.1.0", default-features = false }
thiserror = "=2.0.21"
tracing = "=0.1.44"
tracing-subscriber = { version = "=0.3.23", features = ["env-filter"] }
profiling = "=1.0.18"
puffin_http = "=0.16.1"
xcursor = "=0.3.11"

[dev-dependencies]
drm-fourcc = "=2.2.0"
xkeysym = "=0.2.1"
