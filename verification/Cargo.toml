[package]
name = "openharmony_ability"
version = "0.1.0"
edition = "2021"
publish = false

[dependencies]
log = "=0.4.35"
napi-ohos = "=1.2.0"
napi-derive-ohos = "=1.2.0"
ohos-arkui-binding = "=0.6.0"
ohos-arkui-input-binding = { version = "=0.2.0", features = ["api-17"] }
ohos-display-binding = "=0.1.5"
ohos-ime-binding = "=0.4.0"
ohos-xcomponent-binding = "=0.6.0"
