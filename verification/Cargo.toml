[package]
name = "wcolor"
version = "0.1.0"
edition = "2021"
publish = false

[dependencies]
structopt = "=0.3.26"
wio = "=0.2.2"

[dependencies.winapi]
version = "=0.3.9"
features = ["d2d1", "d2d1_1", "d2d1_2", "d3d11", "d3d9types", "d3dcommon", "dcommon", "dcomp", "dxgi", "dxgi1_2", "dxgi1_3", "dxgiformat", "dxgitype", "libloaderapi", "minwindef", "windef", "winerror", "wingdi", "winuser"]
