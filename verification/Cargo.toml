[package]
name = "headless_primitives"
version = "0.1.0"
edition = "2021"
publish = false

[dependencies]
tailwind_fuse = "*"
clsx = "*"
leptos = "0.7"
web-sys = { version = "0.3", features = ["AnimationEvent", "CssStyleDeclaration", "DomRect", "Element", "HtmlCollection", "HtmlElement", "PointerEvent", "Window"] }
