[package]
name = "hello_rocket"
version = "0.1.0"
edition = "2021"
publish = false

[dependencies]
bcrypt = "=0.19.3"
rand = "=0.8.8"
diesel = { version = "=1.4.8", features = ["sqlite"] }
dotenv = "=0.15.0"
rocket = { version = "0.5", features = ["secrets"] }
rocket_dyn_templates = { version = "0.2", features = ["handlebars"] }
rocket-multipart-form-data = "0.10"
serde = "1"
serde_derive = "1"
time = "0.3"
