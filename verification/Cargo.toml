[package]
name = "helix_win_runner"
version = "0.1.0"
edition = "2021"
publish = false

[dependencies]
clap = { version = "*", features = ["derive"] }
clipboard-win = "*"
enigo = "*"
once_cell = "*"
thiserror = "*"
winapi = { version = "0.3", features = ["winuser", "processthreadsapi", "psapi", "handleapi", "winnt", "minwindef", "windef"] }
