[package]
name = "geojson_mapper"
version = "0.1.0"
edition = "2021"
publish = false

[dependencies]
chrono = "0.4"
crossterm = "0.27"
geojson = "0.24"
plotters = "0.3"
ratatui = "0.26"
