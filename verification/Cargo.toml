[package]
name = "mdmg"
version = "0.1.0"
edition = "2021"
publish = false

[dependencies]
comrak = "*"
handlebars = "*"
Inflector = "*"
itertools = "*"
serde = "*"
structopt = "*"
xdg = "*"
yansi = "*"
