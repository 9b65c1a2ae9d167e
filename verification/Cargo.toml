[package]
name = "bevy_ui_widgets"
version = "0.1.0"
edition = "2021"
publish = false

[dependencies]
bevy_app = "0.8"
bevy_asset = "0.8"
bevy_ecs = "0.8"
bevy_hierarchy = "0.8"
bevy_math = "0.8"
bevy_render = "0.8"
bevy_sprite = "0.8"
bevy_text = "0.8"
bevy_transform = "0.8"
bevy_ui = "0.8"
bevy_utils = "0.8"
bevy_window = "0.8"
smallvec = "1"
