//! Public constants of the V4L2 interface: fields, control flags, control classes and
//! control ids.
use vstd::prelude::*;

verus! {

// Fields.
/// None, top, bottom or interplaced depending on whatever it thinks is approximate.
pub const FIELD_ANY: u32 = 0;
/// This device has no fields.
pub const FIELD_NONE: u32 = 1;
/// Top field only.
pub const FIELD_TOP: u32 = 2;
/// Bottom field only.
pub const FIELD_BOTTOM: u32 = 3;
/// Both fields interplaced.
pub const FIELD_INTERLACED: u32 = 4;
/// Both fields sequential into one buffer, top-bottom order.
pub const FIELD_SEQ_TB: u32 = 5;
/// Both fields sequential into one buffer, bottom-top order.
pub const FIELD_SEQ_BT: u32 = 6;
/// Both fields alternating into separate buffers.
pub const FIELD_ALTERNATE: u32 = 7;
/// Both fields interplaced, top field first and the top field is transmitted first.
pub const FIELD_INTERLACED_TB: u32 = 8;
/// Both fields interplaced, top field first and the bottom field is transmitted first.
pub const FIELD_INTERLACED_BT: u32 = 9;

// Control flags.
/// This control is permanently disabled and should be ignored by the application.
pub const FLAG_DISABLED: u32 = 0x0001;
/// This control is temporarily unchangeable (e.g. another application controls resource).
pub const FLAG_GRABBED: u32 = 0x0002;
/// This control is permanently readable only.
pub const FLAG_READ_ONLY: u32 = 0x0004;
/// Changing this control may affect the value of other controls within the same control class.
pub const FLAG_UPDATE: u32 = 0x0008;
/// This control is not applicable to the current configuration.
pub const FLAG_INACTIVE: u32 = 0x0010;
/// A hint that this control is best represented as a slider-like element in a user interface.
pub const FLAG_SLIDER: u32 = 0x0020;
/// This control is permanently writable only.
pub const FLAG_WRITE_ONLY: u32 = 0x0040;
/// This control is volatile, which means that the value of the control changes continuously.
/// A typical example would be the current gain value if the device is in auto-gain mode.
pub const FLAG_VOLATILE: u32 = 0x0080;
/// This control has a pointer type.
pub const FLAG_HAS_PAYLOAD: u32 = 0x0100;
/// The value provided to the control will be propagated to the driver even if it remains
/// constant. This is required when the control represents an action on the hardware.
/// For example: clearing an error flag or triggering the flash.
pub const FLAG_EXECUTE_ON_WRITE: u32 = 0x0200;

// Control classses.
/// User controls.
/// [Details](http://linuxtv.org/downloads/v4l-dvb-apis/uapi/v4l/control.html).
pub const CLASS_USER: u32 = 0x00980000;
/// MPEG compression controls.
/// [Details](http://linuxtv.org/downloads/v4l-dvb-apis/uapi/v4l/extended-controls.html#mpeg-controls).
pub const CLASS_MPEG: u32 = 0x00990000;
/// Camera controls.
/// [Details](http://linuxtv.org/downloads/v4l-dvb-apis/uapi/v4l/extended-controls.html#camera-controls).
pub const CLASS_CAMERA: u32 = 0x009a0000;
/// FM Transmitter controls.
/// [Details](http://linuxtv.org/downloads/v4l-dvb-apis/uapi/v4l/extended-controls.html#fm-tx-controls).
pub const CLASS_FM_TX: u32 = 0x009b0000;
/// Flash device controls.
/// [Details](http://linuxtv.org/downloads/v4l-dvb-apis/uapi/v4l/extended-controls.html#flash-controls).
pub const CLASS_FLASH: u32 = 0x009c0000;
/// JPEG compression controls.
/// [details](http://linuxtv.org/downloads/v4l-dvb-apis/uapi/v4l/extended-controls.html#jpeg-controls).
pub const CLASS_JPEG: u32 = 0x009d0000;
/// low-level controls of image source.
/// [Details](http://linuxtv.org/downloads/v4l-dvb-apis/uapi/v4l/extended-controls.html#image-source-controls).
pub const CLASS_IMAGE_SOURCE: u32 = 0x009e0000;
/// Image processing controls.
/// [Details](http://linuxtv.org/downloads/v4l-dvb-apis/uapi/v4l/extended-controls.html#image-process-controls).
pub const CLASS_IMAGE_PROC: u32 = 0x009f0000;
/// Digital Video controls.
/// [Details](http://linuxtv.org/downloads/v4l-dvb-apis/uapi/v4l/extended-controls.html#dv-controls).
pub const CLASS_DV: u32 = 0x00a00000;
/// FM Receiver controls.
/// [Details](http://linuxtv.org/downloads/v4l-dvb-apis/uapi/v4l/extended-controls.html#fm-rx-controls).
pub const CLASS_FM_RX: u32 = 0x00a10000;
/// RF tuner controls.
/// [Details](http://linuxtv.org/downloads/v4l-dvb-apis/uapi/v4l/extended-controls.html#rf-tuner-controls).
pub const CLASS_RF_TUNER: u32 = 0x00a20000;
/// Motion or object detection controls.
/// [Details](http://linuxtv.org/downloads/v4l-dvb-apis/uapi/v4l/extended-controls.html#detect-controls).
pub const CLASS_DETECT: u32 = 0x00a30000;

pub const CID_BASE: u32 = 0x980900;
pub const CID_USER_BASE: u32 = 0x980900;
pub const CID_USER_CLASS: u32 = 0x980001;
pub const CID_BRIGHTNESS: u32 = 0x980900;
pub const CID_CONTRAST: u32 = 0x980901;
pub const CID_SATURATION: u32 = 0x980902;
pub const CID_HUE: u32 = 0x980903;
pub const CID_AUDIO_VOLUME: u32 = 0x980905;
pub const CID_AUDIO_BALANCE: u32 = 0x980906;
pub const CID_AUDIO_BASS: u32 = 0x980907;
pub const CID_AUDIO_TREBLE: u32 = 0x980908;
pub const CID_AUDIO_MUTE: u32 = 0x980909;
pub const CID_AUDIO_LOUDNESS: u32 = 0x98090a;
pub const CID_BLACK_LEVEL: u32 = 0x98090b;
pub const CID_AUTO_WHITE_BALANCE: u32 = 0x98090c;
pub const CID_DO_WHITE_BALANCE: u32 = 0x98090d;
pub const CID_RED_BALANCE: u32 = 0x98090e;
pub const CID_BLUE_BALANCE: u32 = 0x98090f;
pub const CID_GAMMA: u32 = 0x980910;
pub const CID_WHITENESS: u32 = 0x980910;
pub const CID_EXPOSURE: u32 = 0x980911;
pub const CID_AUTOGAIN: u32 = 0x980912;
pub const CID_GAIN: u32 = 0x980913;
pub const CID_HFLIP: u32 = 0x980914;
pub const CID_VFLIP: u32 = 0x980915;
pub const CID_POWER_LINE_FREQUENCY: u32 = 0x980918;
pub const CID_POWER_LINE_FREQUENCY_DISABLED: u32 = 0;
pub const CID_POWER_LINE_FREQUENCY_50HZ: u32 = 1;
pub const CID_POWER_LINE_FREQUENCY_60HZ: u32 = 2;
pub const CID_POWER_LINE_FREQUENCY_AUTO: u32 = 3;
pub const CID_HUE_AUTO: u32 = 0x980919;
pub const CID_WHITE_BALANCE_TEMPERATURE: u32 = 0x98091a;
pub const CID_SHARPNESS: u32 = 0x98091b;
pub const CID_BACKLIGHT_COMPENSATION: u32 = 0x98091c;
pub const CID_CHROMA_AGC: u32 = 0x98091d;
pub const CID_COLOR_KILLER: u32 = 0x98091e;
pub const CID_COLORFX: u32 = 0x98091f;
pub const COLORFX_NONE: u32 = 0;
pub const COLORFX_BW: u32 = 1;
pub const COLORFX_SEPIA: u32 = 2;
pub const COLORFX_NEGATIVE: u32 = 3;
pub const COLORFX_EMBOSS: u32 = 4;
pub const COLORFX_SKETCH: u32 = 5;
pub const COLORFX_SKY_BLUE: u32 = 6;
pub const COLORFX_GRASS_GREEN: u32 = 7;
pub const COLORFX_SKIN_WHITEN: u32 = 8;
pub const COLORFX_VIVID: u32 = 9;
pub const COLORFX_AQUA: u32 = 10;
pub const COLORFX_ART_FREEZE: u32 = 11;
pub const COLORFX_SILHOUETTE: u32 = 12;
pub const COLORFX_SOLARIZATION: u32 = 13;
pub const COLORFX_ANTIQUE: u32 = 14;
pub const COLORFX_SET_CBCR: u32 = 15;
pub const CID_AUTOBRIGHTNESS: u32 = 0x980920;
pub const CID_BAND_STOP_FILTER: u32 = 0x980921;
pub const CID_ROTATE: u32 = 0x980922;
pub const CID_BG_COLOR: u32 = 0x980923;
pub const CID_CHROMA_GAIN: u32 = 0x980924;
pub const CID_ILLUMINATORS_1: u32 = 0x980925;
pub const CID_ILLUMINATORS_2: u32 = 0x980926;
pub const CID_MIN_BUFFERS_FOR_CAPTURE: u32 = 0x980927;
pub const CID_MIN_BUFFERS_FOR_OUTPUT: u32 = 0x980928;
pub const CID_ALPHA_COMPONENT: u32 = 0x980929;
pub const CID_COLORFX_CBCR: u32 = 0x98092a;
pub const CID_LASTP1: u32 = 0x98092b;
pub const CID_USER_MEYE_BASE: u32 = 0x981900;
pub const CID_USER_BTTV_BASE: u32 = 0x981910;
pub const CID_USER_S2255_BASE: u32 = 0x981930;
pub const CID_USER_SI476X_BASE: u32 = 0x981940;
pub const CID_USER_TI_VPE_BASE: u32 = 0x981950;
pub const CID_USER_SAA7134_BASE: u32 = 0x981960;
pub const CID_USER_ADV7180_BASE: u32 = 0x981970;
pub const CID_MPEG_BASE: u32 = 0x990900;
pub const CID_MPEG_CLASS: u32 = 0x990001;
pub const CID_MPEG_STREAM_TYPE: u32 = 0x990900;
pub const MPEG_STREAM_TYPE_MPEG2_PS: u32 = 0;
pub const MPEG_STREAM_TYPE_MPEG2_TS: u32 = 1;
pub const MPEG_STREAM_TYPE_MPEG1_SS: u32 = 2;
pub const MPEG_STREAM_TYPE_MPEG2_DVD: u32 = 3;
pub const MPEG_STREAM_TYPE_MPEG1_VCD: u32 = 4;
pub const MPEG_STREAM_TYPE_MPEG2_SVCD: u32 = 5;
pub const CID_MPEG_STREAM_PID_PMT: u32 = 0x990901;
pub const CID_MPEG_STREAM_PID_AUDIO: u32 = 0x990902;
pub const CID_MPEG_STREAM_PID_VIDEO: u32 = 0x990903;
pub const CID_MPEG_STREAM_PID_PCR: u32 = 0x990904;
pub const CID_MPEG_STREAM_PES_ID_AUDIO: u32 = 0x990905;
pub const CID_MPEG_STREAM_PES_ID_VIDEO: u32 = 0x990906;
pub const CID_MPEG_STREAM_VBI_FMT: u32 = 0x990907;
pub const MPEG_STREAM_VBI_FMT_NONE: u32 = 0;
pub const MPEG_STREAM_VBI_FMT_IVTV: u32 = 1;
pub const CID_MPEG_AUDIO_SAMPLING_FREQ: u32 = 0x990964;
pub const MPEG_AUDIO_SAMPLING_FREQ_44100: u32 = 0;
pub const MPEG_AUDIO_SAMPLING_FREQ_48000: u32 = 1;
pub const MPEG_AUDIO_SAMPLING_FREQ_32000: u32 = 2;
pub const CID_MPEG_AUDIO_ENCODING: u32 = 0x990965;
pub const MPEG_AUDIO_ENCODING_LAYER_1: u32 = 0;
pub const MPEG_AUDIO_ENCODING_LAYER_2: u32 = 1;
pub const MPEG_AUDIO_ENCODING_LAYER_3: u32 = 2;
pub const MPEG_AUDIO_ENCODING_AAC: u32 = 3;
pub const MPEG_AUDIO_ENCODING_AC3: u32 = 4;
pub const CID_MPEG_AUDIO_L1_BITRATE: u32 = 0x990966;
pub const MPEG_AUDIO_L1_BITRATE_32K: u32 = 0;
pub const MPEG_AUDIO_L1_BITRATE_64K: u32 = 1;
pub const MPEG_AUDIO_L1_BITRATE_96K: u32 = 2;
pub const MPEG_AUDIO_L1_BITRATE_128K: u32 = 3;
pub const MPEG_AUDIO_L1_BITRATE_160K: u32 = 4;
pub const MPEG_AUDIO_L1_BITRATE_192K: u32 = 5;
pub const MPEG_AUDIO_L1_BITRATE_224K: u32 = 6;
pub const MPEG_AUDIO_L1_BITRATE_256K: u32 = 7;
pub const MPEG_AUDIO_L1_BITRATE_288K: u32 = 8;
pub const MPEG_AUDIO_L1_BITRATE_320K: u32 = 9;
pub const MPEG_AUDIO_L1_BITRATE_352K: u32 = 10;
pub const MPEG_AUDIO_L1_BITRATE_384K: u32 = 11;
pub const MPEG_AUDIO_L1_BITRATE_416K: u32 = 12;
pub const MPEG_AUDIO_L1_BITRATE_448K: u32 = 13;
pub const CID_MPEG_AUDIO_L2_BITRATE: u32 = 0x990967;
pub const MPEG_AUDIO_L2_BITRATE_32K: u32 = 0;
pub const MPEG_AUDIO_L2_BITRATE_48K: u32 = 1;
pub const MPEG_AUDIO_L2_BITRATE_56K: u32 = 2;
pub const MPEG_AUDIO_L2_BITRATE_64K: u32 = 3;
pub const MPEG_AUDIO_L2_BITRATE_80K: u32 = 4;
pub const MPEG_AUDIO_L2_BITRATE_96K: u32 = 5;
pub const MPEG_AUDIO_L2_BITRATE_112K: u32 = 6;
pub const MPEG_AUDIO_L2_BITRATE_128K: u32 = 7;
pub const MPEG_AUDIO_L2_BITRATE_160K: u32 = 8;
pub const MPEG_AUDIO_L2_BITRATE_192K: u32 = 9;
pub const MPEG_AUDIO_L2_BITRATE_224K: u32 = 10;
pub const MPEG_AUDIO_L2_BITRATE_256K: u32 = 11;
pub const MPEG_AUDIO_L2_BITRATE_320K: u32 = 12;
pub const MPEG_AUDIO_L2_BITRATE_384K: u32 = 13;
pub const CID_MPEG_AUDIO_L3_BITRATE: u32 = 0x990968;
pub const MPEG_AUDIO_L3_BITRATE_32K: u32 = 0;
pub const MPEG_AUDIO_L3_BITRATE_40K: u32 = 1;
pub const MPEG_AUDIO_L3_BITRATE_48K: u32 = 2;
pub const MPEG_AUDIO_L3_BITRATE_56K: u32 = 3;
pub const MPEG_AUDIO_L3_BITRATE_64K: u32 = 4;
pub const MPEG_AUDIO_L3_BITRATE_80K: u32 = 5;
pub const MPEG_AUDIO_L3_BITRATE_96K: u32 = 6;
pub const MPEG_AUDIO_L3_BITRATE_112K: u32 = 7;
pub const MPEG_AUDIO_L3_BITRATE_128K: u32 = 8;
pub const MPEG_AUDIO_L3_BITRATE_160K: u32 = 9;
pub const MPEG_AUDIO_L3_BITRATE_192K: u32 = 10;
pub const MPEG_AUDIO_L3_BITRATE_224K: u32 = 11;
pub const MPEG_AUDIO_L3_BITRATE_256K: u32 = 12;
pub const MPEG_AUDIO_L3_BITRATE_320K: u32 = 13;
pub const CID_MPEG_AUDIO_MODE: u32 = 0x990969;
pub const MPEG_AUDIO_MODE_STEREO: u32 = 0;
pub const MPEG_AUDIO_MODE_JOINT_STEREO: u32 = 1;
pub const MPEG_AUDIO_MODE_DUAL: u32 = 2;
pub const MPEG_AUDIO_MODE_MONO: u32 = 3;
pub const CID_MPEG_AUDIO_MODE_EXTENSION: u32 = 0x99096a;
pub const MPEG_AUDIO_MODE_EXTENSION_BOUND_4: u32 = 0;
pub const MPEG_AUDIO_MODE_EXTENSION_BOUND_8: u32 = 1;
pub const MPEG_AUDIO_MODE_EXTENSION_BOUND_12: u32 = 2;
pub const MPEG_AUDIO_MODE_EXTENSION_BOUND_16: u32 = 3;
pub const CID_MPEG_AUDIO_EMPHASIS: u32 = 0x99096b;
pub const MPEG_AUDIO_EMPHASIS_NONE: u32 = 0;
pub const MPEG_AUDIO_EMPHASIS_50_DIV_15_uS: u32 = 1;
pub const MPEG_AUDIO_EMPHASIS_CCITT_J17: u32 = 2;
pub const CID_MPEG_AUDIO_CRC: u32 = 0x99096c;
pub const MPEG_AUDIO_CRC_NONE: u32 = 0;
pub const MPEG_AUDIO_CRC_CRC16: u32 = 1;
pub const CID_MPEG_AUDIO_MUTE: u32 = 0x99096d;
pub const CID_MPEG_AUDIO_AAC_BITRATE: u32 = 0x99096e;
pub const CID_MPEG_AUDIO_AC3_BITRATE: u32 = 0x99096f;
pub const MPEG_AUDIO_AC3_BITRATE_32K: u32 = 0;
pub const MPEG_AUDIO_AC3_BITRATE_40K: u32 = 1;
pub const MPEG_AUDIO_AC3_BITRATE_48K: u32 = 2;
pub const MPEG_AUDIO_AC3_BITRATE_56K: u32 = 3;
pub const MPEG_AUDIO_AC3_BITRATE_64K: u32 = 4;
pub const MPEG_AUDIO_AC3_BITRATE_80K: u32 = 5;
pub const MPEG_AUDIO_AC3_BITRATE_96K: u32 = 6;
pub const MPEG_AUDIO_AC3_BITRATE_112K: u32 = 7;
pub const MPEG_AUDIO_AC3_BITRATE_128K: u32 = 8;
pub const MPEG_AUDIO_AC3_BITRATE_160K: u32 = 9;
pub const MPEG_AUDIO_AC3_BITRATE_192K: u32 = 10;
pub const MPEG_AUDIO_AC3_BITRATE_224K: u32 = 11;
pub const MPEG_AUDIO_AC3_BITRATE_256K: u32 = 12;
pub const MPEG_AUDIO_AC3_BITRATE_320K: u32 = 13;
pub const MPEG_AUDIO_AC3_BITRATE_384K: u32 = 14;
pub const MPEG_AUDIO_AC3_BITRATE_448K: u32 = 15;
pub const MPEG_AUDIO_AC3_BITRATE_512K: u32 = 16;
pub const MPEG_AUDIO_AC3_BITRATE_576K: u32 = 17;
pub const MPEG_AUDIO_AC3_BITRATE_640K: u32 = 18;
pub const CID_MPEG_AUDIO_DEC_PLAYBACK: u32 = 0x990970;
pub const MPEG_AUDIO_DEC_PLAYBACK_AUTO: u32 = 0;
pub const MPEG_AUDIO_DEC_PLAYBACK_STEREO: u32 = 1;
pub const MPEG_AUDIO_DEC_PLAYBACK_LEFT: u32 = 2;
pub const MPEG_AUDIO_DEC_PLAYBACK_RIGHT: u32 = 3;
pub const MPEG_AUDIO_DEC_PLAYBACK_MONO: u32 = 4;
pub const MPEG_AUDIO_DEC_PLAYBACK_SWAPPED_STEREO: u32 = 5;
pub const CID_MPEG_AUDIO_DEC_MULTILINGUAL_PLAYBACK: u32 = 0x990971;
pub const CID_MPEG_VIDEO_ENCODING: u32 = 0x9909c8;
pub const MPEG_VIDEO_ENCODING_MPEG_1: u32 = 0;
pub const MPEG_VIDEO_ENCODING_MPEG_2: u32 = 1;
pub const MPEG_VIDEO_ENCODING_MPEG_4_AVC: u32 = 2;
pub const CID_MPEG_VIDEO_ASPECT: u32 = 0x9909c9;
pub const MPEG_VIDEO_ASPECT_1x1: u32 = 0;
pub const MPEG_VIDEO_ASPECT_4x3: u32 = 1;
pub const MPEG_VIDEO_ASPECT_16x9: u32 = 2;
pub const MPEG_VIDEO_ASPECT_221x100: u32 = 3;
pub const CID_MPEG_VIDEO_B_FRAMES: u32 = 0x9909ca;
pub const CID_MPEG_VIDEO_GOP_SIZE: u32 = 0x9909cb;
pub const CID_MPEG_VIDEO_GOP_CLOSURE: u32 = 0x9909cc;
pub const CID_MPEG_VIDEO_PULLDOWN: u32 = 0x9909cd;
pub const CID_MPEG_VIDEO_BITRATE_MODE: u32 = 0x9909ce;
pub const MPEG_VIDEO_BITRATE_MODE_VBR: u32 = 0;
pub const MPEG_VIDEO_BITRATE_MODE_CBR: u32 = 1;
pub const CID_MPEG_VIDEO_BITRATE: u32 = 0x9909cf;
pub const CID_MPEG_VIDEO_BITRATE_PEAK: u32 = 0x9909d0;
pub const CID_MPEG_VIDEO_TEMPORAL_DECIMATION: u32 = 0x9909d1;
pub const CID_MPEG_VIDEO_MUTE: u32 = 0x9909d2;
pub const CID_MPEG_VIDEO_MUTE_YUV: u32 = 0x9909d3;
pub const CID_MPEG_VIDEO_DECODER_SLICE_INTERFACE: u32 = 0x9909d4;
pub const CID_MPEG_VIDEO_DECODER_MPEG4_DEBLOCK_FILTER: u32 = 0x9909d5;
pub const CID_MPEG_VIDEO_CYCLIC_INTRA_REFRESH_MB: u32 = 0x9909d6;
pub const CID_MPEG_VIDEO_FRAME_RC_ENABLE: u32 = 0x9909d7;
pub const CID_MPEG_VIDEO_HEADER_MODE: u32 = 0x9909d8;
pub const MPEG_VIDEO_HEADER_MODE_SEPARATE: u32 = 0;
pub const MPEG_VIDEO_HEADER_MODE_JOINED_WITH_1ST_FRAME: u32 = 1;
pub const CID_MPEG_VIDEO_MAX_REF_PIC: u32 = 0x9909d9;
pub const CID_MPEG_VIDEO_MB_RC_ENABLE: u32 = 0x9909da;
pub const CID_MPEG_VIDEO_MULTI_SLICE_MAX_BYTES: u32 = 0x9909db;
pub const CID_MPEG_VIDEO_MULTI_SLICE_MAX_MB: u32 = 0x9909dc;
pub const CID_MPEG_VIDEO_MULTI_SLICE_MODE: u32 = 0x9909dd;
pub const MPEG_VIDEO_MULTI_SLICE_MODE_SINGLE: u32 = 0;
pub const MPEG_VIDEO_MULTI_SICE_MODE_MAX_MB: u32 = 1;
pub const MPEG_VIDEO_MULTI_SICE_MODE_MAX_BYTES: u32 = 2;
pub const CID_MPEG_VIDEO_VBV_SIZE: u32 = 0x9909de;
pub const CID_MPEG_VIDEO_DEC_PTS: u32 = 0x9909df;
pub const CID_MPEG_VIDEO_DEC_FRAME: u32 = 0x9909e0;
pub const CID_MPEG_VIDEO_VBV_DELAY: u32 = 0x9909e1;
pub const CID_MPEG_VIDEO_REPEAT_SEQ_HEADER: u32 = 0x9909e2;
pub const CID_MPEG_VIDEO_MV_H_SEARCH_RANGE: u32 = 0x9909e3;
pub const CID_MPEG_VIDEO_MV_V_SEARCH_RANGE: u32 = 0x9909e4;
pub const CID_MPEG_VIDEO_H263_I_FRAME_QP: u32 = 0x990a2c;
pub const CID_MPEG_VIDEO_H263_P_FRAME_QP: u32 = 0x990a2d;
pub const CID_MPEG_VIDEO_H263_B_FRAME_QP: u32 = 0x990a2e;
pub const CID_MPEG_VIDEO_H263_MIN_QP: u32 = 0x990a2f;
pub const CID_MPEG_VIDEO_H263_MAX_QP: u32 = 0x990a30;
pub const CID_MPEG_VIDEO_H264_I_FRAME_QP: u32 = 0x990a5e;
pub const CID_MPEG_VIDEO_H264_P_FRAME_QP: u32 = 0x990a5f;
pub const CID_MPEG_VIDEO_H264_B_FRAME_QP: u32 = 0x990a60;
pub const CID_MPEG_VIDEO_H264_MIN_QP: u32 = 0x990a61;
pub const CID_MPEG_VIDEO_H264_MAX_QP: u32 = 0x990a62;
pub const CID_MPEG_VIDEO_H264_8X8_TRANSFORM: u32 = 0x990a63;
pub const CID_MPEG_VIDEO_H264_CPB_SIZE: u32 = 0x990a64;
pub const CID_MPEG_VIDEO_H264_ENTROPY_MODE: u32 = 0x990a65;
pub const MPEG_VIDEO_H264_ENTROPY_MODE_CAVLC: u32 = 0;
pub const MPEG_VIDEO_H264_ENTROPY_MODE_CABAC: u32 = 1;
pub const CID_MPEG_VIDEO_H264_I_PERIOD: u32 = 0x990a66;
pub const CID_MPEG_VIDEO_H264_LEVEL: u32 = 0x990a67;
pub const MPEG_VIDEO_H264_LEVEL_1_0: u32 = 0;
pub const MPEG_VIDEO_H264_LEVEL_1B: u32 = 1;
pub const MPEG_VIDEO_H264_LEVEL_1_1: u32 = 2;
pub const MPEG_VIDEO_H264_LEVEL_1_2: u32 = 3;
pub const MPEG_VIDEO_H264_LEVEL_1_3: u32 = 4;
pub const MPEG_VIDEO_H264_LEVEL_2_0: u32 = 5;
pub const MPEG_VIDEO_H264_LEVEL_2_1: u32 = 6;
pub const MPEG_VIDEO_H264_LEVEL_2_2: u32 = 7;
pub const MPEG_VIDEO_H264_LEVEL_3_0: u32 = 8;
pub const MPEG_VIDEO_H264_LEVEL_3_1: u32 = 9;
pub const MPEG_VIDEO_H264_LEVEL_3_2: u32 = 10;
pub const MPEG_VIDEO_H264_LEVEL_4_0: u32 = 11;
pub const MPEG_VIDEO_H264_LEVEL_4_1: u32 = 12;
pub const MPEG_VIDEO_H264_LEVEL_4_2: u32 = 13;
pub const MPEG_VIDEO_H264_LEVEL_5_0: u32 = 14;
pub const MPEG_VIDEO_H264_LEVEL_5_1: u32 = 15;
pub const CID_MPEG_VIDEO_H264_LOOP_FILTER_ALPHA: u32 = 0x990a68;
pub const CID_MPEG_VIDEO_H264_LOOP_FILTER_BETA: u32 = 0x990a69;
pub const CID_MPEG_VIDEO_H264_LOOP_FILTER_MODE: u32 = 0x990a6a;
pub const MPEG_VIDEO_H264_LOOP_FILTER_MODE_ENABLED: u32 = 0;
pub const MPEG_VIDEO_H264_LOOP_FILTER_MODE_DISABLED: u32 = 1;
pub const MPEG_VIDEO_H264_LOOP_FILTER_MODE_DISABLED_AT_SLICE_BOUNDARY: u32 = 2;
pub const CID_MPEG_VIDEO_H264_PROFILE: u32 = 0x990a6b;
pub const MPEG_VIDEO_H264_PROFILE_BASELINE: u32 = 0;
pub const MPEG_VIDEO_H264_PROFILE_CONSTRAINED_BASELINE: u32 = 1;
pub const MPEG_VIDEO_H264_PROFILE_MAIN: u32 = 2;
pub const MPEG_VIDEO_H264_PROFILE_EXTENDED: u32 = 3;
pub const MPEG_VIDEO_H264_PROFILE_HIGH: u32 = 4;
pub const MPEG_VIDEO_H264_PROFILE_HIGH_10: u32 = 5;
pub const MPEG_VIDEO_H264_PROFILE_HIGH_422: u32 = 6;
pub const MPEG_VIDEO_H264_PROFILE_HIGH_444_PREDICTIVE: u32 = 7;
pub const MPEG_VIDEO_H264_PROFILE_HIGH_10_INTRA: u32 = 8;
pub const MPEG_VIDEO_H264_PROFILE_HIGH_422_INTRA: u32 = 9;
pub const MPEG_VIDEO_H264_PROFILE_HIGH_444_INTRA: u32 = 10;
pub const MPEG_VIDEO_H264_PROFILE_CAVLC_444_INTRA: u32 = 11;
pub const MPEG_VIDEO_H264_PROFILE_SCALABLE_BASELINE: u32 = 12;
pub const MPEG_VIDEO_H264_PROFILE_SCALABLE_HIGH: u32 = 13;
pub const MPEG_VIDEO_H264_PROFILE_SCALABLE_HIGH_INTRA: u32 = 14;
pub const MPEG_VIDEO_H264_PROFILE_STEREO_HIGH: u32 = 15;
pub const MPEG_VIDEO_H264_PROFILE_MULTIVIEW_HIGH: u32 = 16;
pub const CID_MPEG_VIDEO_H264_VUI_EXT_SAR_HEIGHT: u32 = 0x990a6c;
pub const CID_MPEG_VIDEO_H264_VUI_EXT_SAR_WIDTH: u32 = 0x990a6d;
pub const CID_MPEG_VIDEO_H264_VUI_SAR_ENABLE: u32 = 0x990a6e;
pub const CID_MPEG_VIDEO_H264_VUI_SAR_IDC: u32 = 0x990a6f;
pub const MPEG_VIDEO_H264_VUI_SAR_IDC_UNSPECIFIED: u32 = 0;
pub const MPEG_VIDEO_H264_VUI_SAR_IDC_1x1: u32 = 1;
pub const MPEG_VIDEO_H264_VUI_SAR_IDC_12x11: u32 = 2;
pub const MPEG_VIDEO_H264_VUI_SAR_IDC_10x11: u32 = 3;
pub const MPEG_VIDEO_H264_VUI_SAR_IDC_16x11: u32 = 4;
pub const MPEG_VIDEO_H264_VUI_SAR_IDC_40x33: u32 = 5;
pub const MPEG_VIDEO_H264_VUI_SAR_IDC_24x11: u32 = 6;
pub const MPEG_VIDEO_H264_VUI_SAR_IDC_20x11: u32 = 7;
pub const MPEG_VIDEO_H264_VUI_SAR_IDC_32x11: u32 = 8;
pub const MPEG_VIDEO_H264_VUI_SAR_IDC_80x33: u32 = 9;
pub const MPEG_VIDEO_H264_VUI_SAR_IDC_18x11: u32 = 10;
pub const MPEG_VIDEO_H264_VUI_SAR_IDC_15x11: u32 = 11;
pub const MPEG_VIDEO_H264_VUI_SAR_IDC_64x33: u32 = 12;
pub const MPEG_VIDEO_H264_VUI_SAR_IDC_160x99: u32 = 13;
pub const MPEG_VIDEO_H264_VUI_SAR_IDC_4x3: u32 = 14;
pub const MPEG_VIDEO_H264_VUI_SAR_IDC_3x2: u32 = 15;
pub const MPEG_VIDEO_H264_VUI_SAR_IDC_2x1: u32 = 16;
pub const MPEG_VIDEO_H264_VUI_SAR_IDC_EXTENDED: u32 = 17;
pub const CID_MPEG_VIDEO_H264_SEI_FRAME_PACKING: u32 = 0x990a70;
pub const CID_MPEG_VIDEO_H264_SEI_FP_CURRENT_FRAME_0: u32 = 0x990a71;
pub const CID_MPEG_VIDEO_H264_SEI_FP_ARRANGEMENT_TYPE: u32 = 0x990a72;
pub const MPEG_VIDEO_H264_SEI_FP_ARRANGEMENT_TYPE_CHECKERBOARD: u32 = 0;
pub const MPEG_VIDEO_H264_SEI_FP_ARRANGEMENT_TYPE_COLUMN: u32 = 1;
pub const MPEG_VIDEO_H264_SEI_FP_ARRANGEMENT_TYPE_ROW: u32 = 2;
pub const MPEG_VIDEO_H264_SEI_FP_ARRANGEMENT_TYPE_SIDE_BY_SIDE: u32 = 3;
pub const MPEG_VIDEO_H264_SEI_FP_ARRANGEMENT_TYPE_TOP_BOTTOM: u32 = 4;
pub const MPEG_VIDEO_H264_SEI_FP_ARRANGEMENT_TYPE_TEMPORAL: u32 = 5;
pub const CID_MPEG_VIDEO_H264_FMO: u32 = 0x990a73;
pub const CID_MPEG_VIDEO_H264_FMO_MAP_TYPE: u32 = 0x990a74;
pub const MPEG_VIDEO_H264_FMO_MAP_TYPE_INTERLEAVED_SLICES: u32 = 0;
pub const MPEG_VIDEO_H264_FMO_MAP_TYPE_SCATTERED_SLICES: u32 = 1;
pub const MPEG_VIDEO_H264_FMO_MAP_TYPE_FOREGROUND_WITH_LEFT_OVER: u32 = 2;
pub const MPEG_VIDEO_H264_FMO_MAP_TYPE_BOX_OUT: u32 = 3;
pub const MPEG_VIDEO_H264_FMO_MAP_TYPE_RASTER_SCAN: u32 = 4;
pub const MPEG_VIDEO_H264_FMO_MAP_TYPE_WIPE_SCAN: u32 = 5;
pub const MPEG_VIDEO_H264_FMO_MAP_TYPE_EXPLICIT: u32 = 6;
pub const CID_MPEG_VIDEO_H264_FMO_SLICE_GROUP: u32 = 0x990a75;
pub const CID_MPEG_VIDEO_H264_FMO_CHANGE_DIRECTION: u32 = 0x990a76;
pub const MPEG_VIDEO_H264_FMO_CHANGE_DIR_RIGHT: u32 = 0;
pub const MPEG_VIDEO_H264_FMO_CHANGE_DIR_LEFT: u32 = 1;
pub const CID_MPEG_VIDEO_H264_FMO_CHANGE_RATE: u32 = 0x990a77;
pub const CID_MPEG_VIDEO_H264_FMO_RUN_LENGTH: u32 = 0x990a78;
pub const CID_MPEG_VIDEO_H264_ASO: u32 = 0x990a79;
pub const CID_MPEG_VIDEO_H264_ASO_SLICE_ORDER: u32 = 0x990a7a;
pub const CID_MPEG_VIDEO_H264_HIERARCHICAL_CODING: u32 = 0x990a7b;
pub const CID_MPEG_VIDEO_H264_HIERARCHICAL_CODING_TYPE: u32 = 0x990a7c;
pub const MPEG_VIDEO_H264_HIERARCHICAL_CODING_B: u32 = 0;
pub const MPEG_VIDEO_H264_HIERARCHICAL_CODING_P: u32 = 1;
pub const CID_MPEG_VIDEO_H264_HIERARCHICAL_CODING_LAYER: u32 = 0x990a7d;
pub const CID_MPEG_VIDEO_H264_HIERARCHICAL_CODING_LAYER_QP: u32 = 0x990a7e;
pub const CID_MPEG_VIDEO_MPEG4_I_FRAME_QP: u32 = 0x990a90;
pub const CID_MPEG_VIDEO_MPEG4_P_FRAME_QP: u32 = 0x990a91;
pub const CID_MPEG_VIDEO_MPEG4_B_FRAME_QP: u32 = 0x990a92;
pub const CID_MPEG_VIDEO_MPEG4_MIN_QP: u32 = 0x990a93;
pub const CID_MPEG_VIDEO_MPEG4_MAX_QP: u32 = 0x990a94;
pub const CID_MPEG_VIDEO_MPEG4_LEVEL: u32 = 0x990a95;
pub const MPEG_VIDEO_MPEG4_LEVEL_0: u32 = 0;
pub const MPEG_VIDEO_MPEG4_LEVEL_0B: u32 = 1;
pub const MPEG_VIDEO_MPEG4_LEVEL_1: u32 = 2;
pub const MPEG_VIDEO_MPEG4_LEVEL_2: u32 = 3;
pub const MPEG_VIDEO_MPEG4_LEVEL_3: u32 = 4;
pub const MPEG_VIDEO_MPEG4_LEVEL_3B: u32 = 5;
pub const MPEG_VIDEO_MPEG4_LEVEL_4: u32 = 6;
pub const MPEG_VIDEO_MPEG4_LEVEL_5: u32 = 7;
pub const CID_MPEG_VIDEO_MPEG4_PROFILE: u32 = 0x990a96;
pub const MPEG_VIDEO_MPEG4_PROFILE_SIMPLE: u32 = 0;
pub const MPEG_VIDEO_MPEG4_PROFILE_ADVANCED_SIMPLE: u32 = 1;
pub const MPEG_VIDEO_MPEG4_PROFILE_CORE: u32 = 2;
pub const MPEG_VIDEO_MPEG4_PROFILE_SIMPLE_SCALABLE: u32 = 3;
pub const MPEG_VIDEO_MPEG4_PROFILE_ADVANCED_CODING_EFFICIENCY: u32 = 4;
pub const CID_MPEG_VIDEO_MPEG4_QPEL: u32 = 0x990a97;
pub const CID_MPEG_VIDEO_VPX_NUM_PARTITIONS: u32 = 0x990af4;
pub const CID_MPEG_VIDEO_VPX_1_PARTITION: u32 = 0;
pub const CID_MPEG_VIDEO_VPX_2_PARTITIONS: u32 = 1;
pub const CID_MPEG_VIDEO_VPX_4_PARTITIONS: u32 = 2;
pub const CID_MPEG_VIDEO_VPX_8_PARTITIONS: u32 = 3;
pub const CID_MPEG_VIDEO_VPX_IMD_DISABLE_4X4: u32 = 0x990af5;
pub const CID_MPEG_VIDEO_VPX_NUM_REF_FRAMES: u32 = 0x990af6;
pub const CID_MPEG_VIDEO_VPX_1_REF_FRAME: u32 = 0;
pub const CID_MPEG_VIDEO_VPX_2_REF_FRAME: u32 = 1;
pub const CID_MPEG_VIDEO_VPX_3_REF_FRAME: u32 = 2;
pub const CID_MPEG_VIDEO_VPX_FILTER_LEVEL: u32 = 0x990af7;
pub const CID_MPEG_VIDEO_VPX_FILTER_SHARPNESS: u32 = 0x990af8;
pub const CID_MPEG_VIDEO_VPX_GOLDEN_FRAME_REF_PERIOD: u32 = 0x990af9;
pub const CID_MPEG_VIDEO_VPX_GOLDEN_FRAME_SEL: u32 = 0x990afa;
pub const CID_MPEG_VIDEO_VPX_GOLDEN_FRAME_USE_PREV: u32 = 0;
pub const CID_MPEG_VIDEO_VPX_GOLDEN_FRAME_USE_REF_PERIOD: u32 = 1;
pub const CID_MPEG_VIDEO_VPX_MIN_QP: u32 = 0x990afb;
pub const CID_MPEG_VIDEO_VPX_MAX_QP: u32 = 0x990afc;
pub const CID_MPEG_VIDEO_VPX_I_FRAME_QP: u32 = 0x990afd;
pub const CID_MPEG_VIDEO_VPX_P_FRAME_QP: u32 = 0x990afe;
pub const CID_MPEG_VIDEO_VPX_PROFILE: u32 = 0x990aff;
pub const CID_MPEG_CX2341X_BASE: u32 = 0x991000;
pub const CID_MPEG_CX2341X_VIDEO_SPATIAL_FILTER_MODE: u32 = 0x991000;
pub const MPEG_CX2341X_VIDEO_SPATIAL_FILTER_MODE_MANUAL: u32 = 0;
pub const MPEG_CX2341X_VIDEO_SPATIAL_FILTER_MODE_AUTO: u32 = 1;
pub const CID_MPEG_CX2341X_VIDEO_SPATIAL_FILTER: u32 = 0x991001;
pub const CID_MPEG_CX2341X_VIDEO_LUMA_SPATIAL_FILTER_TYPE: u32 = 0x991002;
pub const MPEG_CX2341X_VIDEO_LUMA_SPATIAL_FILTER_TYPE_OFF: u32 = 0;
pub const MPEG_CX2341X_VIDEO_LUMA_SPATIAL_FILTER_TYPE_1D_HOR: u32 = 1;
pub const MPEG_CX2341X_VIDEO_LUMA_SPATIAL_FILTER_TYPE_1D_VERT: u32 = 2;
pub const MPEG_CX2341X_VIDEO_LUMA_SPATIAL_FILTER_TYPE_2D_HV_SEPARABLE: u32 = 3;
pub const MPEG_CX2341X_VIDEO_LUMA_SPATIAL_FILTER_TYPE_2D_SYM_NON_SEPARABLE: u32 = 4;
pub const CID_MPEG_CX2341X_VIDEO_CHROMA_SPATIAL_FILTER_TYPE: u32 = 0x991003;
pub const MPEG_CX2341X_VIDEO_CHROMA_SPATIAL_FILTER_TYPE_OFF: u32 = 0;
pub const MPEG_CX2341X_VIDEO_CHROMA_SPATIAL_FILTER_TYPE_1D_HOR: u32 = 1;
pub const CID_MPEG_CX2341X_VIDEO_TEMPORAL_FILTER_MODE: u32 = 0x991004;
pub const MPEG_CX2341X_VIDEO_TEMPORAL_FILTER_MODE_MANUAL: u32 = 0;
pub const MPEG_CX2341X_VIDEO_TEMPORAL_FILTER_MODE_AUTO: u32 = 1;
pub const CID_MPEG_CX2341X_VIDEO_TEMPORAL_FILTER: u32 = 0x991005;
pub const CID_MPEG_CX2341X_VIDEO_MEDIAN_FILTER_TYPE: u32 = 0x991006;
pub const MPEG_CX2341X_VIDEO_MEDIAN_FILTER_TYPE_OFF: u32 = 0;
pub const MPEG_CX2341X_VIDEO_MEDIAN_FILTER_TYPE_HOR: u32 = 1;
pub const MPEG_CX2341X_VIDEO_MEDIAN_FILTER_TYPE_VERT: u32 = 2;
pub const MPEG_CX2341X_VIDEO_MEDIAN_FILTER_TYPE_HOR_VERT: u32 = 3;
pub const MPEG_CX2341X_VIDEO_MEDIAN_FILTER_TYPE_DIAG: u32 = 4;
pub const CID_MPEG_CX2341X_VIDEO_LUMA_MEDIAN_FILTER_BOTTOM: u32 = 0x991007;
pub const CID_MPEG_CX2341X_VIDEO_LUMA_MEDIAN_FILTER_TOP: u32 = 0x991008;
pub const CID_MPEG_CX2341X_VIDEO_CHROMA_MEDIAN_FILTER_BOTTOM: u32 = 0x991009;
pub const CID_MPEG_CX2341X_VIDEO_CHROMA_MEDIAN_FILTER_TOP: u32 = 0x99100a;
pub const CID_MPEG_CX2341X_STREAM_INSERT_NAV_PACKETS: u32 = 0x99100b;
pub const CID_MPEG_MFC51_BASE: u32 = 0x991100;
pub const CID_MPEG_MFC51_VIDEO_DECODER_H264_DISPLAY_DELAY: u32 = 0x991100;
pub const CID_MPEG_MFC51_VIDEO_DECODER_H264_DISPLAY_DELAY_ENABLE: u32 = 0x991101;
pub const CID_MPEG_MFC51_VIDEO_FRAME_SKIP_MODE: u32 = 0x991102;
pub const MPEG_MFC51_VIDEO_FRAME_SKIP_MODE_DISABLED: u32 = 0;
pub const MPEG_MFC51_VIDEO_FRAME_SKIP_MODE_LEVEL_LIMIT: u32 = 1;
pub const MPEG_MFC51_VIDEO_FRAME_SKIP_MODE_BUF_LIMIT: u32 = 2;
pub const CID_MPEG_MFC51_VIDEO_FORCE_FRAME_TYPE: u32 = 0x991103;
pub const MPEG_MFC51_VIDEO_FORCE_FRAME_TYPE_DISABLED: u32 = 0;
pub const MPEG_MFC51_VIDEO_FORCE_FRAME_TYPE_I_FRAME: u32 = 1;
pub const MPEG_MFC51_VIDEO_FORCE_FRAME_TYPE_NOT_CODED: u32 = 2;
pub const CID_MPEG_MFC51_VIDEO_PADDING: u32 = 0x991104;
pub const CID_MPEG_MFC51_VIDEO_PADDING_YUV: u32 = 0x991105;
pub const CID_MPEG_MFC51_VIDEO_RC_FIXED_TARGET_BIT: u32 = 0x991106;
pub const CID_MPEG_MFC51_VIDEO_RC_REACTION_COEFF: u32 = 0x991107;
pub const CID_MPEG_MFC51_VIDEO_H264_ADAPTIVE_RC_ACTIVITY: u32 = 0x991132;
pub const CID_MPEG_MFC51_VIDEO_H264_ADAPTIVE_RC_DARK: u32 = 0x991133;
pub const CID_MPEG_MFC51_VIDEO_H264_ADAPTIVE_RC_SMOOTH: u32 = 0x991134;
pub const CID_MPEG_MFC51_VIDEO_H264_ADAPTIVE_RC_STATIC: u32 = 0x991135;
pub const CID_MPEG_MFC51_VIDEO_H264_NUM_REF_PIC_FOR_P: u32 = 0x991136;
pub const CID_CAMERA_CLASS_BASE: u32 = 0x9a0900;
pub const CID_CAMERA_CLASS: u32 = 0x9a0001;
pub const CID_EXPOSURE_AUTO: u32 = 0x9a0901;
pub const EXPOSURE_AUTO: u32 = 0;
pub const EXPOSURE_MANUAL: u32 = 1;
pub const EXPOSURE_SHUTTER_PRIORITY: u32 = 2;
pub const EXPOSURE_APERTURE_PRIORITY: u32 = 3;
pub const CID_EXPOSURE_ABSOLUTE: u32 = 0x9a0902;
pub const CID_EXPOSURE_AUTO_PRIORITY: u32 = 0x9a0903;
pub const CID_PAN_RELATIVE: u32 = 0x9a0904;
pub const CID_TILT_RELATIVE: u32 = 0x9a0905;
pub const CID_PAN_RESET: u32 = 0x9a0906;
pub const CID_TILT_RESET: u32 = 0x9a0907;
pub const CID_PAN_ABSOLUTE: u32 = 0x9a0908;
pub const CID_TILT_ABSOLUTE: u32 = 0x9a0909;
pub const CID_FOCUS_ABSOLUTE: u32 = 0x9a090a;
pub const CID_FOCUS_RELATIVE: u32 = 0x9a090b;
pub const CID_FOCUS_AUTO: u32 = 0x9a090c;
pub const CID_ZOOM_ABSOLUTE: u32 = 0x9a090d;
pub const CID_ZOOM_RELATIVE: u32 = 0x9a090e;
pub const CID_ZOOM_CONTINUOUS: u32 = 0x9a090f;
pub const CID_PRIVACY: u32 = 0x9a0910;
pub const CID_IRIS_ABSOLUTE: u32 = 0x9a0911;
pub const CID_IRIS_RELATIVE: u32 = 0x9a0912;
pub const CID_AUTO_EXPOSURE_BIAS: u32 = 0x9a0913;
pub const CID_AUTO_N_PRESET_WHITE_BALANCE: u32 = 0x9a0914;
pub const WHITE_BALANCE_MANUAL: u32 = 0;
pub const WHITE_BALANCE_AUTO: u32 = 1;
pub const WHITE_BALANCE_INCANDESCENT: u32 = 2;
pub const WHITE_BALANCE_FLUORESCENT: u32 = 3;
pub const WHITE_BALANCE_FLUORESCENT_H: u32 = 4;
pub const WHITE_BALANCE_HORIZON: u32 = 5;
pub const WHITE_BALANCE_DAYLIGHT: u32 = 6;
pub const WHITE_BALANCE_FLASH: u32 = 7;
pub const WHITE_BALANCE_CLOUDY: u32 = 8;
pub const WHITE_BALANCE_SHADE: u32 = 9;
pub const WHITE_BALANCE_GREYWORLD: u32 = 10;
pub const CID_WIDE_DYNAMIC_RANGE: u32 = 0x9a0915;
pub const CID_IMAGE_STABILIZATION: u32 = 0x9a0916;
pub const CID_ISO_SENSITIVITY: u32 = 0x9a0917;
pub const CID_ISO_SENSITIVITY_AUTO: u32 = 0x9a0918;
pub const ISO_SENSITIVITY_MANUAL: u32 = 0;
pub const ISO_SENSITIVITY_AUTO: u32 = 1;
pub const CID_EXPOSURE_METERING: u32 = 0x9a0919;
pub const EXPOSURE_METERING_AVERAGE: u32 = 0;
pub const EXPOSURE_METERING_CENTER_WEIGHTED: u32 = 1;
pub const EXPOSURE_METERING_SPOT: u32 = 2;
pub const EXPOSURE_METERING_MATRIX: u32 = 3;
pub const CID_SCENE_MODE: u32 = 0x9a091a;
pub const SCENE_MODE_NONE: u32 = 0;
pub const SCENE_MODE_BACKLIGHT: u32 = 1;
pub const SCENE_MODE_BEACH_SNOW: u32 = 2;
pub const SCENE_MODE_CANDLE_LIGHT: u32 = 3;
pub const SCENE_MODE_DAWN_DUSK: u32 = 4;
pub const SCENE_MODE_FALL_COLORS: u32 = 5;
pub const SCENE_MODE_FIREWORKS: u32 = 6;
pub const SCENE_MODE_LANDSCAPE: u32 = 7;
pub const SCENE_MODE_NIGHT: u32 = 8;
pub const SCENE_MODE_PARTY_INDOOR: u32 = 9;
pub const SCENE_MODE_PORTRAIT: u32 = 10;
pub const SCENE_MODE_SPORTS: u32 = 11;
pub const SCENE_MODE_SUNSET: u32 = 12;
pub const SCENE_MODE_TEXT: u32 = 13;
pub const CID_3A_LOCK: u32 = 0x9a091b;
pub const LOCK_EXPOSURE: u32 = 1;
pub const LOCK_WHITE_BALANCE: u32 = 2;
pub const LOCK_FOCUS: u32 = 4;
pub const CID_AUTO_FOCUS_START: u32 = 0x9a091c;
pub const CID_AUTO_FOCUS_STOP: u32 = 0x9a091d;
pub const CID_AUTO_FOCUS_STATUS: u32 = 0x9a091e;
pub const AUTO_FOCUS_STATUS_IDLE: u32 = 0;
pub const AUTO_FOCUS_STATUS_BUSY: u32 = 1;
pub const AUTO_FOCUS_STATUS_REACHED: u32 = 2;
pub const AUTO_FOCUS_STATUS_FAILED: u32 = 4;
pub const CID_AUTO_FOCUS_RANGE: u32 = 0x9a091f;
pub const AUTO_FOCUS_RANGE_AUTO: u32 = 0;
pub const AUTO_FOCUS_RANGE_NORMAL: u32 = 1;
pub const AUTO_FOCUS_RANGE_MACRO: u32 = 2;
pub const AUTO_FOCUS_RANGE_INFINITY: u32 = 3;
pub const CID_PAN_SPEED: u32 = 0x9a0920;
pub const CID_TILT_SPEED: u32 = 0x9a0921;
pub const CID_FM_TX_CLASS_BASE: u32 = 0x9b0900;
pub const CID_FM_TX_CLASS: u32 = 0x9b0001;
pub const CID_RDS_TX_DEVIATION: u32 = 0x9b0901;
pub const CID_RDS_TX_PI: u32 = 0x9b0902;
pub const CID_RDS_TX_PTY: u32 = 0x9b0903;
pub const CID_RDS_TX_PS_NAME: u32 = 0x9b0905;
pub const CID_RDS_TX_RADIO_TEXT: u32 = 0x9b0906;
pub const CID_RDS_TX_MONO_STEREO: u32 = 0x9b0907;
pub const CID_RDS_TX_ARTIFICIAL_HEAD: u32 = 0x9b0908;
pub const CID_RDS_TX_COMPRESSED: u32 = 0x9b0909;
pub const CID_RDS_TX_DYNAMIC_PTY: u32 = 0x9b090a;
pub const CID_RDS_TX_TRAFFIC_ANNOUNCEMENT: u32 = 0x9b090b;
pub const CID_RDS_TX_TRAFFIC_PROGRAM: u32 = 0x9b090c;
pub const CID_RDS_TX_MUSIC_SPEECH: u32 = 0x9b090d;
pub const CID_RDS_TX_ALT_FREQS_ENABLE: u32 = 0x9b090e;
pub const CID_RDS_TX_ALT_FREQS: u32 = 0x9b090f;
pub const CID_AUDIO_LIMITER_ENABLED: u32 = 0x9b0940;
pub const CID_AUDIO_LIMITER_RELEASE_TIME: u32 = 0x9b0941;
pub const CID_AUDIO_LIMITER_DEVIATION: u32 = 0x9b0942;
pub const CID_AUDIO_COMPRESSION_ENABLED: u32 = 0x9b0950;
pub const CID_AUDIO_COMPRESSION_GAIN: u32 = 0x9b0951;
pub const CID_AUDIO_COMPRESSION_THRESHOLD: u32 = 0x9b0952;
pub const CID_AUDIO_COMPRESSION_ATTACK_TIME: u32 = 0x9b0953;
pub const CID_AUDIO_COMPRESSION_RELEASE_TIME: u32 = 0x9b0954;
pub const CID_PILOT_TONE_ENABLED: u32 = 0x9b0960;
pub const CID_PILOT_TONE_DEVIATION: u32 = 0x9b0961;
pub const CID_PILOT_TONE_FREQUENCY: u32 = 0x9b0962;
pub const CID_TUNE_PREEMPHASIS: u32 = 0x9b0970;
pub const PREEMPHASIS_DISABLED: u32 = 0;
pub const PREEMPHASIS_50_uS: u32 = 1;
pub const PREEMPHASIS_75_uS: u32 = 2;
pub const CID_TUNE_POWER_LEVEL: u32 = 0x9b0971;
pub const CID_TUNE_ANTENNA_CAPACITOR: u32 = 0x9b0972;
pub const CID_FLASH_CLASS_BASE: u32 = 0x9c0900;
pub const CID_FLASH_CLASS: u32 = 0x9c0001;
pub const CID_FLASH_LED_MODE: u32 = 0x9c0901;
pub const FLASH_LED_MODE_NONE: u32 = 0;
pub const FLASH_LED_MODE_FLASH: u32 = 1;
pub const FLASH_LED_MODE_TORCH: u32 = 2;
pub const CID_FLASH_STROBE_SOURCE: u32 = 0x9c0902;
pub const FLASH_STROBE_SOURCE_SOFTWARE: u32 = 0;
pub const FLASH_STROBE_SOURCE_EXTERNAL: u32 = 1;
pub const CID_FLASH_STROBE: u32 = 0x9c0903;
pub const CID_FLASH_STROBE_STOP: u32 = 0x9c0904;
pub const CID_FLASH_STROBE_STATUS: u32 = 0x9c0905;
pub const CID_FLASH_TIMEOUT: u32 = 0x9c0906;
pub const CID_FLASH_INTENSITY: u32 = 0x9c0907;
pub const CID_FLASH_TORCH_INTENSITY: u32 = 0x9c0908;
pub const CID_FLASH_INDICATOR_INTENSITY: u32 = 0x9c0909;
pub const CID_FLASH_FAULT: u32 = 0x9c090a;
pub const FLASH_FAULT_OVER_VOLTAGE: u32 = 1;
pub const FLASH_FAULT_TIMEOUT: u32 = 2;
pub const FLASH_FAULT_OVER_TEMPERATURE: u32 = 4;
pub const FLASH_FAULT_SHORT_CIRCUIT: u32 = 8;
pub const FLASH_FAULT_OVER_CURRENT: u32 = 16;
pub const FLASH_FAULT_INDICATOR: u32 = 32;
pub const FLASH_FAULT_UNDER_VOLTAGE: u32 = 64;
pub const FLASH_FAULT_INPUT_VOLTAGE: u32 = 128;
pub const FLASH_FAULT_LED_OVER_TEMPERATURE: u32 = 0x100;
pub const CID_FLASH_CHARGE: u32 = 0x9c090b;
pub const CID_FLASH_READY: u32 = 0x9c090c;
pub const CID_JPEG_CLASS_BASE: u32 = 0x9d0900;
pub const CID_JPEG_CLASS: u32 = 0x9d0001;
pub const CID_JPEG_CHROMA_SUBSAMPLING: u32 = 0x9d0901;
pub const JPEG_CHROMA_SUBSAMPLING_444: u32 = 0;
pub const JPEG_CHROMA_SUBSAMPLING_422: u32 = 1;
pub const JPEG_CHROMA_SUBSAMPLING_420: u32 = 2;
pub const JPEG_CHROMA_SUBSAMPLING_411: u32 = 3;
pub const JPEG_CHROMA_SUBSAMPLING_410: u32 = 4;
pub const JPEG_CHROMA_SUBSAMPLING_GRAY: u32 = 5;
pub const CID_JPEG_RESTART_INTERVAL: u32 = 0x9d0902;
pub const CID_JPEG_COMPRESSION_QUALITY: u32 = 0x9d0903;
pub const CID_JPEG_ACTIVE_MARKER: u32 = 0x9d0904;
pub const JPEG_ACTIVE_MARKER_APP0: u32 = 1;
pub const JPEG_ACTIVE_MARKER_APP1: u32 = 2;
pub const JPEG_ACTIVE_MARKER_COM: u32 = 0x10000;
pub const JPEG_ACTIVE_MARKER_DQT: u32 = 0x20000;
pub const JPEG_ACTIVE_MARKER_DHT: u32 = 0x40000;
pub const CID_IMAGE_SOURCE_CLASS_BASE: u32 = 0x9e0900;
pub const CID_IMAGE_SOURCE_CLASS: u32 = 0x9e0001;
pub const CID_VBLANK: u32 = 0x9e0901;
pub const CID_HBLANK: u32 = 0x9e0902;
pub const CID_ANALOGUE_GAIN: u32 = 0x9e0903;
pub const CID_TEST_PATTERN_RED: u32 = 0x9e0904;
pub const CID_TEST_PATTERN_GREENR: u32 = 0x9e0905;
pub const CID_TEST_PATTERN_BLUE: u32 = 0x9e0906;
pub const CID_TEST_PATTERN_GREENB: u32 = 0x9e0907;
pub const CID_IMAGE_PROC_CLASS_BASE: u32 = 0x9f0900;
pub const CID_IMAGE_PROC_CLASS: u32 = 0x9f0001;
pub const CID_LINK_FREQ: u32 = 0x9f0901;
pub const CID_PIXEL_RATE: u32 = 0x9f0902;
pub const CID_TEST_PATTERN: u32 = 0x9f0903;
pub const CID_DV_CLASS_BASE: u32 = 0xa00900;
pub const CID_DV_CLASS: u32 = 0xa00001;
pub const CID_DV_TX_HOTPLUG: u32 = 0xa00901;
pub const CID_DV_TX_RXSENSE: u32 = 0xa00902;
pub const CID_DV_TX_EDID_PRESENT: u32 = 0xa00903;
pub const CID_DV_TX_MODE: u32 = 0xa00904;
pub const DV_TX_MODE_DVI_D: u32 = 0;
pub const DV_TX_MODE_HDMI: u32 = 1;
pub const CID_DV_TX_RGB_RANGE: u32 = 0xa00905;
pub const DV_RGB_RANGE_AUTO: u32 = 0;
pub const DV_RGB_RANGE_LIMITED: u32 = 1;
pub const DV_RGB_RANGE_FULL: u32 = 2;
pub const CID_DV_RX_POWER_PRESENT: u32 = 0xa00964;
pub const CID_DV_RX_RGB_RANGE: u32 = 0xa00965;
pub const CID_FM_RX_CLASS_BASE: u32 = 0xa10900;
pub const CID_FM_RX_CLASS: u32 = 0xa10001;
pub const CID_TUNE_DEEMPHASIS: u32 = 0xa10901;
pub const DEEMPHASIS_DISABLED: u32 = 0;
pub const DEEMPHASIS_50_uS: u32 = 1;
pub const DEEMPHASIS_75_uS: u32 = 2;
pub const CID_RDS_RECEPTION: u32 = 0xa10902;
pub const CID_RDS_RX_PTY: u32 = 0xa10903;
pub const CID_RDS_RX_PS_NAME: u32 = 0xa10904;
pub const CID_RDS_RX_RADIO_TEXT: u32 = 0xa10905;
pub const CID_RDS_RX_TRAFFIC_ANNOUNCEMENT: u32 = 0xa10906;
pub const CID_RDS_RX_TRAFFIC_PROGRAM: u32 = 0xa10907;
pub const CID_RDS_RX_MUSIC_SPEECH: u32 = 0xa10908;
pub const CID_RF_TUNER_CLASS_BASE: u32 = 0xa20900;
pub const CID_RF_TUNER_CLASS: u32 = 0xa20001;
pub const CID_RF_TUNER_BANDWIDTH_AUTO: u32 = 0xa2090b;
pub const CID_RF_TUNER_BANDWIDTH: u32 = 0xa2090c;
pub const CID_RF_TUNER_LNA_GAIN_AUTO: u32 = 0xa20929;
pub const CID_RF_TUNER_LNA_GAIN: u32 = 0xa2092a;
pub const CID_RF_TUNER_MIXER_GAIN_AUTO: u32 = 0xa20933;
pub const CID_RF_TUNER_MIXER_GAIN: u32 = 0xa20934;
pub const CID_RF_TUNER_IF_GAIN_AUTO: u32 = 0xa2093d;
pub const CID_RF_TUNER_IF_GAIN: u32 = 0xa2093e;
pub const CID_RF_TUNER_PLL_LOCK: u32 = 0xa2095b;
pub const CID_DETECT_CLASS_BASE: u32 = 0xa30900;
pub const CID_DETECT_CLASS: u32 = 0xa30001;
pub const CID_DETECT_MD_MODE: u32 = 0xa30901;
pub const DETECT_MD_MODE_DISABLED: u32 = 0;
pub const DETECT_MD_MODE_GLOBAL: u32 = 1;
pub const DETECT_MD_MODE_THRESHOLD_GRID: u32 = 2;
pub const DETECT_MD_MODE_REGION_GRID: u32 = 3;
pub const CID_DETECT_MD_GLOBAL_THRESHOLD: u32 = 0xa30902;
pub const CID_DETECT_MD_THRESHOLD_GRID: u32 = 0xa30903;
pub const CID_DETECT_MD_REGION_GRID: u32 = 0xa30904;

} // verus!
