[package]
name = "vipdf"
version = "0.3.0"
edition = "2021"
publish = false

[dependencies]
hayro = "*"
pdfium = "*"
softbuffer = "0.4"
vello_cpu = "*"
winit = "0.30"
