//! The recipes.

pub mod argocd;
pub mod awscli2;
pub mod bat;
pub mod bottom;
pub mod cmake;
pub mod cue;
pub mod direnv;
pub mod doppler;
pub mod fd;
pub mod ffmpeg;
pub mod file;
pub mod fluxcd;
pub mod glow;
pub mod golangci_lint;
pub mod gpg;
pub mod helm;
pub mod jj;
pub mod jq;
pub mod json_c;
pub mod just;
pub mod k9s;
pub mod kubeseal;
pub mod lazygit;
pub mod libassuan;
pub mod libevent;
pub mod libgcrypt;
pub mod libgpg_error;
pub mod libksba;
pub mod libuv;
pub mod libwebsockets;
pub mod lima;
pub mod linux_vorpal_slim;
pub mod mbedtls;
pub mod ncurses;
pub mod neovim;
pub mod nnn;
pub mod npth;
pub mod openapi_generator_cli;
pub mod openjdk;
pub mod pkg_config;
pub mod readline;
pub mod ripgrep;
pub mod skopeo;
pub mod sqlite3;
pub mod starship;
pub mod terraform;
pub mod tmux;
pub mod ttyd;
pub mod umoci;
pub mod vhs;
pub mod yq;
pub mod zlib;
pub mod zsh;
