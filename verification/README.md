# framework

The decisions of an Android framework for apps that run on a host without Android, verified with
Verus. The library holds no global state and calls no managed runtime: each function takes the
registry or the state that it works on, and its contract says what becomes of it.

| Part | Modules |
| --- | --- |
| Handles | `slots`, and the registries over it: `asset_registry`, `bitmap_registry`, `canvas_registry`, `matrix_registry`, `paint_registry`, `path`, `theme_registry`, `view_registry`, `window`, `xml_registry` |
| Resources | `assets`, `resources`, `styling`, `typed_array`, `typed_value` |
| Views | `layout`, `draw`, `input`, `text_edit`, `text_field`, `text_pointer` |
| Graphics | `bitmap`, `paint` |
| Web | `bridge`, `cookies`, `json`, `web_callbacks`, `web_view` |
| Life of an app | `activities`, `lifecycle`, `looper`, `main_dispatch`, `message_queue` |
| Host | `error`, `host`, `memory`, `names`, `native_load`, `natives` |
| Text | `text` |

A proof function whose name begins with `law_` states what holds across several functions.

What rests on trust is in `canvas_registry` (tiny-skia), `cookies` (httpdate and the clock), `json`
(serde_json), `text` and `text_edit` (two functions of std); each such item says what it claims.

`app/` is the host side: the native methods, the drivers that call into the runtime, and the work
on floating-point numbers, which the library holds as bits.
