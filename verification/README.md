# nokhwa (OpenCV capture backend)

The device logic of an OpenCV camera backend, verified with Verus.

- `src/` is the verified library: the camera description types (`types`),
  errors and their messages (`error`), decimal and string helpers (`text`),
  the RGB image wrapper over the `image` crate (`imaging`), the capture
  device state with the decision taken around every OpenCV call
  (`opencv_backend`), and properties spanning several functions (`laws`).
- `app/` drives a real `opencv::videoio::VideoCapture`: it makes each OpenCV
  call, hands the outcome to the library, and carries the `Display`/`Error`
  copies of the error type.
- `tests/` runs the library on concrete outcomes.
