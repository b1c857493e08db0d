[package]
name = "cerke_dqn"
version = "0.1.0"
edition = "2021"
publish = false

[dependencies]
anyhow = "=1.0.104"
cetkaik_core = "=0.3.9"
cetkaik_full_state_transition = "=0.1.13"
cetkaik_yhuap_move_candidates = "=0.2.9"
chrono = "=0.4.45"
rand = "=0.10.3"
tch = "=0.10.3"
