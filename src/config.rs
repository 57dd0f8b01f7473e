use vstd::prelude::*;

verus! {

/// Where to read key events from and where to write the log.
#[derive(Debug, Clone)]
pub struct Config {
    pub device_file: String,
    pub log_file: String,
}

impl Config {
    /// A configuration with the given device file and log file.
    pub fn new(device_file: String, log_file: String) -> (c: Config)
        ensures
            c.device_file@ == device_file@,
            c.log_file@ == log_file@,
    {
        Config { device_file, log_file }
    }
}

/// The log file used when none was named.
pub open spec fn default_log_file() -> Seq<char> {
    "keys.log"@
}

/// The log file to write: the one named, else `keys.log`.
pub fn log_file_or_default(given: Option<String>) -> (r: String)
    ensures
        given matches Some(g) ==> r@ == g@,
        given is None ==> r@ == default_log_file(),
{
    match given {
        Some(g) => g,
        None => String::from_str("keys.log"),
    }
}

/// The keyboard device to use when none was named: the detected one, if
/// exactly one was detected, else `None`.
pub fn choose_default_device(detected: Vec<String>) -> (r: Option<String>)
    ensures
        r is Some <==> detected@.len() == 1,
        r matches Some(d) ==> d@ == detected@[0]@,
{
    let mut detected = detected;
    if detected.len() == 1 {
        Some(detected.swap_remove(0))
    } else {
        None
    }
}

} // verus!
