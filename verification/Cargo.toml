[package]
name = "redb_opfs"
version = "0.1.0"
edition = "2021"
publish = false

[dependencies]
js-sys = "*"
wasm-bindgen = "*"
wasm-bindgen-futures = "*"
parking_lot = "*"
redb = "*"
derive_more = { version = "*", features = ["display", "error", "from"] }

[dependencies.web-sys]
version = "*"
features = [
    "DomException",
    "FileSystemDirectoryHandle",
    "FileSystemFileHandle",
    "FileSystemGetDirectoryOptions",
    "FileSystemGetFileOptions",
    "FileSystemHandle",
    "FileSystemReadWriteOptions",
    "FileSystemSyncAccessHandle",
    "DedicatedWorkerGlobalScope",
    "WorkerGlobalScope",
    "WorkerNavigator",
    "Navigator",
    "StorageManager",
    "Window",
]
