//! The result codes of the native engine and what they mean.
//!
//! A call into the engine that fails is reported to the script as an error
//! that carries the text for the code.

use vstd::prelude::*;

verus! {

/// A result code of the native engine, under the name the engine gives it.
#[allow(non_camel_case_types)]
#[derive(Clone, Copy, Debug, PartialEq, Eq)]
pub enum FmodResult {
    FMOD_OK,
    FMOD_ERR_BADCOMMAND,
    FMOD_ERR_CHANNEL_ALLOC,
    FMOD_ERR_CHANNEL_STOLEN,
    FMOD_ERR_DMA,
    FMOD_ERR_DSP_CONNECTION,
    FMOD_ERR_DSP_DONTPROCESS,
    FMOD_ERR_DSP_FORMAT,
    FMOD_ERR_DSP_INUSE,
    FMOD_ERR_DSP_NOTFOUND,
    FMOD_ERR_DSP_RESERVED,
    FMOD_ERR_DSP_SILENCE,
    FMOD_ERR_DSP_TYPE,
    FMOD_ERR_FILE_BAD,
    FMOD_ERR_FILE_COULDNOTSEEK,
    FMOD_ERR_FILE_DISKEJECTED,
    FMOD_ERR_FILE_EOF,
    FMOD_ERR_FILE_ENDOFDATA,
    FMOD_ERR_FILE_NOTFOUND,
    FMOD_ERR_FORMAT,
    FMOD_ERR_HEADER_MISMATCH,
    FMOD_ERR_HTTP,
    FMOD_ERR_HTTP_ACCESS,
    FMOD_ERR_HTTP_PROXY_AUTH,
    FMOD_ERR_HTTP_SERVER_ERROR,
    FMOD_ERR_HTTP_TIMEOUT,
    FMOD_ERR_INITIALIZATION,
    FMOD_ERR_INITIALIZED,
    FMOD_ERR_INTERNAL,
    FMOD_ERR_INVALID_FLOAT,
    FMOD_ERR_INVALID_HANDLE,
    FMOD_ERR_INVALID_PARAM,
    FMOD_ERR_INVALID_POSITION,
    FMOD_ERR_INVALID_SPEAKER,
    FMOD_ERR_INVALID_SYNCPOINT,
    FMOD_ERR_INVALID_THREAD,
    FMOD_ERR_INVALID_VECTOR,
    FMOD_ERR_MAXAUDIBLE,
    FMOD_ERR_MEMORY,
    FMOD_ERR_MEMORY_CANTPOINT,
    FMOD_ERR_NEEDS3D,
    FMOD_ERR_NEEDSHARDWARE,
    FMOD_ERR_NET_CONNECT,
    FMOD_ERR_NET_SOCKET_ERROR,
    FMOD_ERR_NET_URL,
    FMOD_ERR_NET_WOULD_BLOCK,
    FMOD_ERR_NOTREADY,
    FMOD_ERR_OUTPUT_ALLOCATED,
    FMOD_ERR_OUTPUT_CREATEBUFFER,
    FMOD_ERR_OUTPUT_DRIVERCALL,
    FMOD_ERR_OUTPUT_FORMAT,
    FMOD_ERR_OUTPUT_INIT,
    FMOD_ERR_OUTPUT_NODRIVERS,
    FMOD_ERR_PLUGIN,
    FMOD_ERR_PLUGIN_MISSING,
    FMOD_ERR_PLUGIN_RESOURCE,
    FMOD_ERR_PLUGIN_VERSION,
    FMOD_ERR_RECORD,
    FMOD_ERR_REVERB_CHANNELGROUP,
    FMOD_ERR_REVERB_INSTANCE,
    FMOD_ERR_SUBSOUNDS,
    FMOD_ERR_SUBSOUND_ALLOCATED,
    FMOD_ERR_SUBSOUND_CANTMOVE,
    FMOD_ERR_TAGNOTFOUND,
    FMOD_ERR_TOOMANYCHANNELS,
    FMOD_ERR_TRUNCATED,
    FMOD_ERR_UNIMPLEMENTED,
    FMOD_ERR_UNINITIALIZED,
    FMOD_ERR_UNSUPPORTED,
    FMOD_ERR_VERSION,
    FMOD_ERR_EVENT_ALREADY_LOADED,
    FMOD_ERR_EVENT_LIVEUPDATE_BUSY,
    FMOD_ERR_EVENT_LIVEUPDATE_MISMATCH,
    FMOD_ERR_EVENT_LIVEUPDATE_TIMEOUT,
    FMOD_ERR_EVENT_NOTFOUND,
    FMOD_ERR_STUDIO_UNINITIALIZED,
    FMOD_ERR_STUDIO_NOT_LOADED,
    FMOD_ERR_INVALID_STRING,
    FMOD_ERR_ALREADY_LOCKED,
    FMOD_ERR_NOT_LOCKED,
    FMOD_ERR_RECORD_DISCONNECTED,
    FMOD_ERR_TOOMANYSAMPLES,
}

impl FmodResult {
    /// The text for a result code, as the engine's documentation words it.
    pub open spec fn text(self) -> Seq<char> {
        match self {
            FmodResult::FMOD_OK => "No errors."@,
            FmodResult::FMOD_ERR_BADCOMMAND => "Tried to call a function on a data type that does not allow this type of functionality (ie calling Sound::lock on a streaming sound)."@,
            FmodResult::FMOD_ERR_CHANNEL_ALLOC => "Error trying to allocate a channel."@,
            FmodResult::FMOD_ERR_CHANNEL_STOLEN => "The specified channel has been reused to play another sound."@,
            FmodResult::FMOD_ERR_DMA => "DMA Failure.  See debug output for more information."@,
            FmodResult::FMOD_ERR_DSP_CONNECTION => "DSP connection error.  Connection possibly caused a cyclic dependency or connected dsps with incompatible buffer counts."@,
            FmodResult::FMOD_ERR_DSP_DONTPROCESS => "DSP return code from a DSP process query callback.  Tells mixer not to call the process callback and therefore not consume CPU.  Use this to optimize the DSP graph."@,
            FmodResult::FMOD_ERR_DSP_FORMAT => "DSP Format error.  A DSP unit may have attempted to connect to this network with the wrong format, or a matrix may have been set with the wrong size if the target unit has a specified channel map."@,
            FmodResult::FMOD_ERR_DSP_INUSE => "DSP is already in the mixer's DSP network. It must be removed before being reinserted or released."@,
            FmodResult::FMOD_ERR_DSP_NOTFOUND => "DSP connection error.  Couldn't find the DSP unit specified."@,
            FmodResult::FMOD_ERR_DSP_RESERVED => "DSP operation error.  Cannot perform operation on this DSP as it is reserved by the system."@,
            FmodResult::FMOD_ERR_DSP_SILENCE => "DSP return code from a DSP process query callback.  Tells mixer silence would be produced from read, so go idle and not consume CPU.  Use this to optimize the DSP graph."@,
            FmodResult::FMOD_ERR_DSP_TYPE => "DSP operation cannot be performed on a DSP of this type."@,
            FmodResult::FMOD_ERR_FILE_BAD => "Error loading file."@,
            FmodResult::FMOD_ERR_FILE_COULDNOTSEEK => "Couldn't perform seek operation.  This is a limitation of the medium (ie netstreams) or the file format."@,
            FmodResult::FMOD_ERR_FILE_DISKEJECTED => "Media was ejected while reading."@,
            FmodResult::FMOD_ERR_FILE_EOF => "End of file unexpectedly reached while trying to read essential data (truncated?)."@,
            FmodResult::FMOD_ERR_FILE_ENDOFDATA => "End of current chunk reached while trying to read data."@,
            FmodResult::FMOD_ERR_FILE_NOTFOUND => "File not found."@,
            FmodResult::FMOD_ERR_FORMAT => "Unsupported file or audio format."@,
            FmodResult::FMOD_ERR_HEADER_MISMATCH => "There is a version mismatch between the FMOD header and either the FMOD Studio library or the FMOD Low Level library."@,
            FmodResult::FMOD_ERR_HTTP => "A HTTP error occurred. This is a catch-all for HTTP errors not listed elsewhere."@,
            FmodResult::FMOD_ERR_HTTP_ACCESS => "The specified resource requires authentication or is forbidden."@,
            FmodResult::FMOD_ERR_HTTP_PROXY_AUTH => "Proxy authentication is required to access the specified resource."@,
            FmodResult::FMOD_ERR_HTTP_SERVER_ERROR => "A HTTP server error occurred."@,
            FmodResult::FMOD_ERR_HTTP_TIMEOUT => "The HTTP request timed out."@,
            FmodResult::FMOD_ERR_INITIALIZATION => "FMOD was not initialized correctly to support this function."@,
            FmodResult::FMOD_ERR_INITIALIZED => "Cannot call this command after System::init."@,
            FmodResult::FMOD_ERR_INTERNAL => "An error occurred that wasn't supposed to.  Contact support."@,
            FmodResult::FMOD_ERR_INVALID_FLOAT => "Value passed in was a NaN, Inf or denormalized float."@,
            FmodResult::FMOD_ERR_INVALID_HANDLE => "An invalid object handle was used."@,
            FmodResult::FMOD_ERR_INVALID_PARAM => "An invalid parameter was passed to this function."@,
            FmodResult::FMOD_ERR_INVALID_POSITION => "An invalid seek position was passed to this function."@,
            FmodResult::FMOD_ERR_INVALID_SPEAKER => "An invalid speaker was passed to this function based on the current speaker mode."@,
            FmodResult::FMOD_ERR_INVALID_SYNCPOINT => "The syncpoint did not come from this sound handle."@,
            FmodResult::FMOD_ERR_INVALID_THREAD => "Tried to call a function on a thread that is not supported."@,
            FmodResult::FMOD_ERR_INVALID_VECTOR => "The vectors passed in are not unit length, or perpendicular."@,
            FmodResult::FMOD_ERR_MAXAUDIBLE => "Reached maximum audible playback count for this sound's soundgroup."@,
            FmodResult::FMOD_ERR_MEMORY => "Not enough memory or resources."@,
            FmodResult::FMOD_ERR_MEMORY_CANTPOINT => "Can't use FMOD_OPENMEMORY_POINT on non PCM source data, or non mp3/xma/adpcm data if FMOD_CREATECOMPRESSEDSAMPLE was used."@,
            FmodResult::FMOD_ERR_NEEDS3D => "Tried to call a command on a 2d sound when the command was meant for 3d sound."@,
            FmodResult::FMOD_ERR_NEEDSHARDWARE => "Tried to use a feature that requires hardware support."@,
            FmodResult::FMOD_ERR_NET_CONNECT => "Couldn't connect to the specified host."@,
            FmodResult::FMOD_ERR_NET_SOCKET_ERROR => "A socket error occurred.  This is a catch-all for socket-related errors not listed elsewhere."@,
            FmodResult::FMOD_ERR_NET_URL => "The specified URL couldn't be resolved."@,
            FmodResult::FMOD_ERR_NET_WOULD_BLOCK => "Operation on a non-blocking socket could not complete immediately."@,
            FmodResult::FMOD_ERR_NOTREADY => "Operation could not be performed because specified sound/DSP connection is not ready."@,
            FmodResult::FMOD_ERR_OUTPUT_ALLOCATED => "Error initializing output device, but more specifically, the output device is already in use and cannot be reused."@,
            FmodResult::FMOD_ERR_OUTPUT_CREATEBUFFER => "Error creating hardware sound buffer."@,
            FmodResult::FMOD_ERR_OUTPUT_DRIVERCALL => "A call to a standard soundcard driver failed, which could possibly mean a bug in the driver or resources were missing or exhausted."@,
            FmodResult::FMOD_ERR_OUTPUT_FORMAT => "Soundcard does not support the specified format."@,
            FmodResult::FMOD_ERR_OUTPUT_INIT => "Error initializing output device."@,
            FmodResult::FMOD_ERR_OUTPUT_NODRIVERS => "The output device has no drivers installed.  If pre-init, FMOD_OUTPUT_NOSOUND is selected as the output mode.  If post-init, the function just fails."@,
            FmodResult::FMOD_ERR_PLUGIN => "An unspecified error has been returned from a plugin."@,
            FmodResult::FMOD_ERR_PLUGIN_MISSING => "A requested output, dsp unit type or codec was not available."@,
            FmodResult::FMOD_ERR_PLUGIN_RESOURCE => "A resource that the plugin requires cannot be allocated or found. (ie the DLS file for MIDI playback)"@,
            FmodResult::FMOD_ERR_PLUGIN_VERSION => "A plugin was built with an unsupported SDK version."@,
            FmodResult::FMOD_ERR_RECORD => "An error occurred trying to initialize the recording device."@,
            FmodResult::FMOD_ERR_REVERB_CHANNELGROUP => "Reverb properties cannot be set on this channel because a parent channelgroup owns the reverb connection."@,
            FmodResult::FMOD_ERR_REVERB_INSTANCE => "Specified instance in FMOD_REVERB_PROPERTIES couldn't be set. Most likely because it is an invalid instance number or the reverb doesn't exist."@,
            FmodResult::FMOD_ERR_SUBSOUNDS => "The error occurred because the sound referenced contains subsounds when it shouldn't have, or it doesn't contain subsounds when it should have.  The operation may also not be able to be performed on a parent sound."@,
            FmodResult::FMOD_ERR_SUBSOUND_ALLOCATED => "This subsound is already being used by another sound, you cannot have more than one parent to a sound.  Null out the other parent's entry first."@,
            FmodResult::FMOD_ERR_SUBSOUND_CANTMOVE => "Shared subsounds cannot be replaced or moved from their parent stream, such as when the parent stream is an FSB file."@,
            FmodResult::FMOD_ERR_TAGNOTFOUND => "The specified tag could not be found or there are no tags."@,
            FmodResult::FMOD_ERR_TOOMANYCHANNELS => "The sound created exceeds the allowable input channel count.  This can be increased using the 'maxinputchannels' parameter in System::setSoftwareFormat."@,
            FmodResult::FMOD_ERR_TRUNCATED => "The retrieved string is too long to fit in the supplied buffer and has been truncated."@,
            FmodResult::FMOD_ERR_UNIMPLEMENTED => "Something in FMOD hasn't been implemented when it should be! contact support!"@,
            FmodResult::FMOD_ERR_UNINITIALIZED => "This command failed because System::init or System::setDriver was not called."@,
            FmodResult::FMOD_ERR_UNSUPPORTED => "A command issued was not supported by this object.  Possibly a plugin without certain callbacks specified."@,
            FmodResult::FMOD_ERR_VERSION => "The version number of this file format is not supported."@,
            FmodResult::FMOD_ERR_EVENT_ALREADY_LOADED => "The specified bank has already been loaded."@,
            FmodResult::FMOD_ERR_EVENT_LIVEUPDATE_BUSY => "The live update connection failed due to the game already being connected."@,
            FmodResult::FMOD_ERR_EVENT_LIVEUPDATE_MISMATCH => "The live update connection failed due to the game data being out of sync with the tool."@,
            FmodResult::FMOD_ERR_EVENT_LIVEUPDATE_TIMEOUT => "The live update connection timed out."@,
            FmodResult::FMOD_ERR_EVENT_NOTFOUND => "The requested event, parameter, bus or vca could not be found."@,
            FmodResult::FMOD_ERR_STUDIO_UNINITIALIZED => "The Studio::System object is not yet initialized."@,
            FmodResult::FMOD_ERR_STUDIO_NOT_LOADED => "The specified resource is not loaded, so it can't be unloaded."@,
            FmodResult::FMOD_ERR_INVALID_STRING => "An invalid string was passed to this function."@,
            FmodResult::FMOD_ERR_ALREADY_LOCKED => "The specified resource is already locked."@,
            FmodResult::FMOD_ERR_NOT_LOCKED => "The specified resource is not locked, so it can't be unlocked."@,
            FmodResult::FMOD_ERR_RECORD_DISCONNECTED => "The specified recording driver has been disconnected."@,
            FmodResult::FMOD_ERR_TOOMANYSAMPLES => "The length provided exceeds the allowable limit."@,
        }
    }

    /// The text for the result code.
    pub fn message(self) -> (message: &'static str)
        ensures
            message@ == self.text(),
    {
        match self {
            FmodResult::FMOD_OK => "No errors.",
            FmodResult::FMOD_ERR_BADCOMMAND => "Tried to call a function on a data type that does not allow this type of functionality (ie calling Sound::lock on a streaming sound).",
            FmodResult::FMOD_ERR_CHANNEL_ALLOC => "Error trying to allocate a channel.",
            FmodResult::FMOD_ERR_CHANNEL_STOLEN => "The specified channel has been reused to play another sound.",
            FmodResult::FMOD_ERR_DMA => "DMA Failure.  See debug output for more information.",
            FmodResult::FMOD_ERR_DSP_CONNECTION => "DSP connection error.  Connection possibly caused a cyclic dependency or connected dsps with incompatible buffer counts.",
            FmodResult::FMOD_ERR_DSP_DONTPROCESS => "DSP return code from a DSP process query callback.  Tells mixer not to call the process callback and therefore not consume CPU.  Use this to optimize the DSP graph.",
            FmodResult::FMOD_ERR_DSP_FORMAT => "DSP Format error.  A DSP unit may have attempted to connect to this network with the wrong format, or a matrix may have been set with the wrong size if the target unit has a specified channel map.",
            FmodResult::FMOD_ERR_DSP_INUSE => "DSP is already in the mixer's DSP network. It must be removed before being reinserted or released.",
            FmodResult::FMOD_ERR_DSP_NOTFOUND => "DSP connection error.  Couldn't find the DSP unit specified.",
            FmodResult::FMOD_ERR_DSP_RESERVED => "DSP operation error.  Cannot perform operation on this DSP as it is reserved by the system.",
            FmodResult::FMOD_ERR_DSP_SILENCE => "DSP return code from a DSP process query callback.  Tells mixer silence would be produced from read, so go idle and not consume CPU.  Use this to optimize the DSP graph.",
            FmodResult::FMOD_ERR_DSP_TYPE => "DSP operation cannot be performed on a DSP of this type.",
            FmodResult::FMOD_ERR_FILE_BAD => "Error loading file.",
            FmodResult::FMOD_ERR_FILE_COULDNOTSEEK => "Couldn't perform seek operation.  This is a limitation of the medium (ie netstreams) or the file format.",
            FmodResult::FMOD_ERR_FILE_DISKEJECTED => "Media was ejected while reading.",
            FmodResult::FMOD_ERR_FILE_EOF => "End of file unexpectedly reached while trying to read essential data (truncated?).",
            FmodResult::FMOD_ERR_FILE_ENDOFDATA => "End of current chunk reached while trying to read data.",
            FmodResult::FMOD_ERR_FILE_NOTFOUND => "File not found.",
            FmodResult::FMOD_ERR_FORMAT => "Unsupported file or audio format.",
            FmodResult::FMOD_ERR_HEADER_MISMATCH => "There is a version mismatch between the FMOD header and either the FMOD Studio library or the FMOD Low Level library.",
            FmodResult::FMOD_ERR_HTTP => "A HTTP error occurred. This is a catch-all for HTTP errors not listed elsewhere.",
            FmodResult::FMOD_ERR_HTTP_ACCESS => "The specified resource requires authentication or is forbidden.",
            FmodResult::FMOD_ERR_HTTP_PROXY_AUTH => "Proxy authentication is required to access the specified resource.",
            FmodResult::FMOD_ERR_HTTP_SERVER_ERROR => "A HTTP server error occurred.",
            FmodResult::FMOD_ERR_HTTP_TIMEOUT => "The HTTP request timed out.",
            FmodResult::FMOD_ERR_INITIALIZATION => "FMOD was not initialized correctly to support this function.",
            FmodResult::FMOD_ERR_INITIALIZED => "Cannot call this command after System::init.",
            FmodResult::FMOD_ERR_INTERNAL => "An error occurred that wasn't supposed to.  Contact support.",
            FmodResult::FMOD_ERR_INVALID_FLOAT => "Value passed in was a NaN, Inf or denormalized float.",
            FmodResult::FMOD_ERR_INVALID_HANDLE => "An invalid object handle was used.",
            FmodResult::FMOD_ERR_INVALID_PARAM => "An invalid parameter was passed to this function.",
            FmodResult::FMOD_ERR_INVALID_POSITION => "An invalid seek position was passed to this function.",
            FmodResult::FMOD_ERR_INVALID_SPEAKER => "An invalid speaker was passed to this function based on the current speaker mode.",
            FmodResult::FMOD_ERR_INVALID_SYNCPOINT => "The syncpoint did not come from this sound handle.",
            FmodResult::FMOD_ERR_INVALID_THREAD => "Tried to call a function on a thread that is not supported.",
            FmodResult::FMOD_ERR_INVALID_VECTOR => "The vectors passed in are not unit length, or perpendicular.",
            FmodResult::FMOD_ERR_MAXAUDIBLE => "Reached maximum audible playback count for this sound's soundgroup.",
            FmodResult::FMOD_ERR_MEMORY => "Not enough memory or resources.",
            FmodResult::FMOD_ERR_MEMORY_CANTPOINT => "Can't use FMOD_OPENMEMORY_POINT on non PCM source data, or non mp3/xma/adpcm data if FMOD_CREATECOMPRESSEDSAMPLE was used.",
            FmodResult::FMOD_ERR_NEEDS3D => "Tried to call a command on a 2d sound when the command was meant for 3d sound.",
            FmodResult::FMOD_ERR_NEEDSHARDWARE => "Tried to use a feature that requires hardware support.",
            FmodResult::FMOD_ERR_NET_CONNECT => "Couldn't connect to the specified host.",
            FmodResult::FMOD_ERR_NET_SOCKET_ERROR => "A socket error occurred.  This is a catch-all for socket-related errors not listed elsewhere.",
            FmodResult::FMOD_ERR_NET_URL => "The specified URL couldn't be resolved.",
            FmodResult::FMOD_ERR_NET_WOULD_BLOCK => "Operation on a non-blocking socket could not complete immediately.",
            FmodResult::FMOD_ERR_NOTREADY => "Operation could not be performed because specified sound/DSP connection is not ready.",
            FmodResult::FMOD_ERR_OUTPUT_ALLOCATED => "Error initializing output device, but more specifically, the output device is already in use and cannot be reused.",
            FmodResult::FMOD_ERR_OUTPUT_CREATEBUFFER => "Error creating hardware sound buffer.",
            FmodResult::FMOD_ERR_OUTPUT_DRIVERCALL => "A call to a standard soundcard driver failed, which could possibly mean a bug in the driver or resources were missing or exhausted.",
            FmodResult::FMOD_ERR_OUTPUT_FORMAT => "Soundcard does not support the specified format.",
            FmodResult::FMOD_ERR_OUTPUT_INIT => "Error initializing output device.",
            FmodResult::FMOD_ERR_OUTPUT_NODRIVERS => "The output device has no drivers installed.  If pre-init, FMOD_OUTPUT_NOSOUND is selected as the output mode.  If post-init, the function just fails.",
            FmodResult::FMOD_ERR_PLUGIN => "An unspecified error has been returned from a plugin.",
            FmodResult::FMOD_ERR_PLUGIN_MISSING => "A requested output, dsp unit type or codec was not available.",
            FmodResult::FMOD_ERR_PLUGIN_RESOURCE => "A resource that the plugin requires cannot be allocated or found. (ie the DLS file for MIDI playback)",
            FmodResult::FMOD_ERR_PLUGIN_VERSION => "A plugin was built with an unsupported SDK version.",
            FmodResult::FMOD_ERR_RECORD => "An error occurred trying to initialize the recording device.",
            FmodResult::FMOD_ERR_REVERB_CHANNELGROUP => "Reverb properties cannot be set on this channel because a parent channelgroup owns the reverb connection.",
            FmodResult::FMOD_ERR_REVERB_INSTANCE => "Specified instance in FMOD_REVERB_PROPERTIES couldn't be set. Most likely because it is an invalid instance number or the reverb doesn't exist.",
            FmodResult::FMOD_ERR_SUBSOUNDS => "The error occurred because the sound referenced contains subsounds when it shouldn't have, or it doesn't contain subsounds when it should have.  The operation may also not be able to be performed on a parent sound.",
            FmodResult::FMOD_ERR_SUBSOUND_ALLOCATED => "This subsound is already being used by another sound, you cannot have more than one parent to a sound.  Null out the other parent's entry first.",
            FmodResult::FMOD_ERR_SUBSOUND_CANTMOVE => "Shared subsounds cannot be replaced or moved from their parent stream, such as when the parent stream is an FSB file.",
            FmodResult::FMOD_ERR_TAGNOTFOUND => "The specified tag could not be found or there are no tags.",
            FmodResult::FMOD_ERR_TOOMANYCHANNELS => "The sound created exceeds the allowable input channel count.  This can be increased using the 'maxinputchannels' parameter in System::setSoftwareFormat.",
            FmodResult::FMOD_ERR_TRUNCATED => "The retrieved string is too long to fit in the supplied buffer and has been truncated.",
            FmodResult::FMOD_ERR_UNIMPLEMENTED => "Something in FMOD hasn't been implemented when it should be! contact support!",
            FmodResult::FMOD_ERR_UNINITIALIZED => "This command failed because System::init or System::setDriver was not called.",
            FmodResult::FMOD_ERR_UNSUPPORTED => "A command issued was not supported by this object.  Possibly a plugin without certain callbacks specified.",
            FmodResult::FMOD_ERR_VERSION => "The version number of this file format is not supported.",
            FmodResult::FMOD_ERR_EVENT_ALREADY_LOADED => "The specified bank has already been loaded.",
            FmodResult::FMOD_ERR_EVENT_LIVEUPDATE_BUSY => "The live update connection failed due to the game already being connected.",
            FmodResult::FMOD_ERR_EVENT_LIVEUPDATE_MISMATCH => "The live update connection failed due to the game data being out of sync with the tool.",
            FmodResult::FMOD_ERR_EVENT_LIVEUPDATE_TIMEOUT => "The live update connection timed out.",
            FmodResult::FMOD_ERR_EVENT_NOTFOUND => "The requested event, parameter, bus or vca could not be found.",
            FmodResult::FMOD_ERR_STUDIO_UNINITIALIZED => "The Studio::System object is not yet initialized.",
            FmodResult::FMOD_ERR_STUDIO_NOT_LOADED => "The specified resource is not loaded, so it can't be unloaded.",
            FmodResult::FMOD_ERR_INVALID_STRING => "An invalid string was passed to this function.",
            FmodResult::FMOD_ERR_ALREADY_LOCKED => "The specified resource is already locked.",
            FmodResult::FMOD_ERR_NOT_LOCKED => "The specified resource is not locked, so it can't be unlocked.",
            FmodResult::FMOD_ERR_RECORD_DISCONNECTED => "The specified recording driver has been disconnected.",
            FmodResult::FMOD_ERR_TOOMANYSAMPLES => "The length provided exceeds the allowable limit.",
        }
    }
}

} // verus!
