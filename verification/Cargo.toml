[package]
name = "playnow"
version = "0.1.0"
edition = "2021"
publish = false

[dependencies]
steamid = "*"
steamwebapi = "*"
url = "*"
rustc-serialize = "*"
quick-error = "*"
time = "0.1"
redis = "*"
r2d2 = "*"
r2d2_redis = "*"
postgres = "*"
r2d2_postgres = "*"
websocket = { version = "*", default-features = false, features = ["sync"] }
iron = "0.6"
router = "*"
mount = "*"
staticfile = "*"
handlebars-iron = "*"
cookie = "*"
urlencoded = "*"
logger = "*"
env_logger = "*"
log = "*"
plugin = "*"
