# easydrm

The decisions of a minimal framework for fullscreen Linux applications on
DRM/KMS, GBM and EGL, verified with Verus: which mode a monitor needs, which of
its two buffers is drawn into, what goes into an atomic commit, and what each
failure means.

- `src/` is the verified library. It talks to no device. Where outside work and
  decisions alternate (creating the context, setting up a monitor, creating a
  slot of the swapchain, populating a commit), it hands out stages: values that
  say what is to be done next and take what came of it.
- `app/` performs the stages with the `drm`, `gbm` and `glutin` crates.
- `tests/` runs the library on concrete values.

## Modes

| Mode             | Meaning                                    | When it changes                               |
| ---------------- | ------------------------------------------ | --------------------------------------------- |
| `default_mode`   | the best mode, found at set-up             | never                                         |
| `requested_mode` | what the application wants; none = default | `set_mode`                                    |
| `current_mode`   | what the kernel is using                   | `mark_mode_set` after a successful commit, `clear_mode_state` |

A commit sets the mode when the wanted mode is not the current one. That covers
the first frame, the return of the display from another program, and modes that
the application requests.

## What is trusted

- `request.rs`: the `drm` crate's `AtomicModeReq`, its `new` and its
  `add_property`.
- `egl_image.rs`: that exactly one code is `DrmModifier::Invalid`.
- `error.rs`: `std::io::Error`, carried unread, and its text, of which nothing
  is claimed.
