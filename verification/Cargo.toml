[package]
name = "sregame"
version = "0.1.0"
edition = "2021"
publish = false

[dependencies]
anyhow = "=1.0.104"
bevy = { version = "=0.17.3", default-features = false, features = ["std", "bevy_asset", "bevy_core_pipeline", "bevy_log", "bevy_render", "bevy_sprite", "bevy_sprite_render", "bevy_state", "bevy_text", "bevy_ui", "bevy_window"] }
bevy_ecs_tilemap = "=0.17.0"
bevy_remote = "=0.17.3"
chrono = { version = "=0.4.45", default-features = false, features = ["std", "now"] }
clap = { version = "=4.6.7", default-features = false, features = ["std", "derive", "help", "usage", "error-context"] }
opentelemetry = "=0.33.1"
opentelemetry-appender-tracing = "=0.33.1"
opentelemetry-otlp = { version = "=0.33.1", default-features = false, features = ["grpc-tonic", "trace", "metrics", "logs"] }
opentelemetry_sdk = "=0.33.1"
serde = { version = "=1.0.229", features = ["derive"] }
serde_json = "=1.0.154"
tokio = { version = "=1.54.1", features = ["rt-multi-thread"] }
tracing = "=0.1.44"
tracing-subscriber = { version = "=0.3.23", features = ["env-filter"] }

[dev-dependencies]
opentelemetry_sdk = { version = "=0.33.1", features = ["testing"] }
