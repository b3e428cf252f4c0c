[package]
name = "gallery_core"
version = "0.1.0"
edition = "2021"
publish = false

[dependencies]
image = "*"
dicom-object = "*"
dicom-pixeldata = { version = "*", features = ["image"] }
jpeg-decoder = "*"
jbig2dec = "*"
rawloader = "*"
imagepipe = "*"
rayon = "*"
