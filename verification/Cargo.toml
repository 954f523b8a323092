[package]
name = "fdw_stats"
version = "0.1.0"
edition = "2021"
publish = false

[dependencies]
pgrx = "=0.16.1"
supabase-wrappers = "=0.1.28"
serde_json = "=1.0.154"
