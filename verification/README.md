# shiguredo_openh264 (verified core)

A binding to Cisco's OpenH264 H.264 codec (Constrained Baseline, I420 in and out),
split in two:

- `src/` is the verified library. It holds every decision the binding makes:
  - `config`: encoder settings (`EncoderConfig`, levels, modes) and their validation
    (sizes within level 5.2, values that fit the C types, QP and slice bounds);
  - `params`: the `SEncParamExt` / `SDecodingParam` blocks as plain values and how a
    configuration, a profile probe or a new picture size fills them in;
  - `encoder`: the encoder's picture size, frame rate and frame counter, the input
    plane sizes it accepts and the timestamps it hands out;
  - `bitstream`: Annex B start codes, the layout of the NAL units of an encoded layer,
    and the split of SPS/PPS from the picture data;
  - `decoder`: the checks on what the decoder returns and the decoded picture;
  - `library`: the version check and the capability report of a loaded library;
  - `error`, `text`: the error type and its decimal rendering.
- `app/` loads the shared library at run time (`dlopen` / `LoadLibraryW`), declares the
  C structures and virtual tables it uses, and calls into OpenH264, handing the results
  to the library for every decision.
