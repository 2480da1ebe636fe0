//! Stopping the services that the system can run without.
use vstd::prelude::*;
use crate::errors::TweakError;
use crate::tweaks::{TweakId, TweakOption};

verus! {

/// How many times the tool goes through the list of services.
pub const STOP_ATTEMPTS: u32 = 5;

/// The state code `SERVICE_STOPPED` of a service.
pub const SERVICE_STOPPED: u32 = 1;

/// The names of the services to stop, in the order in which they are stopped.
pub open spec fn services_to_kill_spec() -> Seq<Seq<char>> {
    seq![
        "AdobeARMservice"@,
        "AdobeFlashPlayerUpdateSvc"@,
        "AdobeUpdateService"@,
        "AeLookupSvc"@,
        "AJRouter"@,
        "ALG"@,
        "AppIDSvc"@,
        "AppMgmt"@,
        "AppReadiness"@,
        "AppXSvc"@,
        "AssignedAccessManagerSvc"@,
        "AudioEndpointBuilder"@,
        "Audiosrv"@,
        "autotimesvc"@,
        "AxInstSV"@,
        "BDESVC"@,
        "BluetoothUserService"@,
        "BFE"@,
        "BITS"@,
        "Browser"@,
        "BthAvctpSvc"@,
        "BTAGService"@,
        "camsvc"@,
        "CaptureService"@,
        "CDPSvc"@,
        "CertPropSvc"@,
        "ClipSVC"@,
        "CryptSvc"@,
        "DiagTrack"@,
        "defragsvc"@,
        "DevQueryBroker"@,
        "DeviceAssociationService"@,
        "DevicesFlowUserSvc"@,
        "diagnosticshub"@,
        "DispBrokerDesktopSvc"@,
        "Dnscache"@,
        "DPS"@,
        "DsmSvc"@,
        "DusmSvc"@,
        "EFS"@,
        "EntAppSvc"@,
        "EventLog"@,
        "FrameServer"@,
        "GraphicsPerfSvc"@,
        "hidserv"@,
        "HvHost"@,
        "icssvc"@,
        "IKEEXT"@,
        "iphlpsvc"@,
        "lfsvc"@,
        "lmhosts"@,
        "InstallService"@,
        "irmon"@,
        "KeyIso"@,
        "LanmanWorkstation"@,
        "LanmanServer"@,
        "LicenseManager"@,
        "LxpSvc"@,
        "LSM"@,
        "MDCoreSvc"@,
        "mpssvc"@,
        "MSDTC"@,
        "MSiSCSI"@,
        "NaturalAuthentication"@,
        "NcbService"@,
        "NgcCtnrSvc"@,
        "NgcSvc"@,
        "NPSMSvc"@,
        "NVDisplay"@,
        "OneSyncSvc"@,
        "PcaSvc"@,
        "PhoneSvc"@,
        "PimIndexMaintenanceSvc"@,
        "pla"@,
        "PlugPlay"@,
        "PolicyAgent"@,
        "PrintNotify"@,
        "RasMan"@,
        "RtkAudioUniversalService"@,
        "SCardSvr"@,
        "ScDeviceEnum"@,
        "SCPolicySvc"@,
        "Schedule"@,
        "seclogon"@,
        "SEMgrSvc"@,
        "SensorDataService"@,
        "SensorService"@,
        "SensrSvc"@,
        "SessionEnv"@,
        "ShellHWDetection"@,
        "shpamsvc"@,
        "SSDPSRV"@,
        "SysMain"@,
        "TextInputManagementService"@,
        "Themes"@,
        "TokenBroker"@,
        "tzautoupdate"@,
        "WpnUserService"@,
        "OneSyncSvc"@,
        "wlidsvc"@,
        "WinHttpAutoProxySvc"@,
        "Wcmsvc"@
    ]
}

/// The tweak that stops every non-critical service; it is an action and
/// has no state to revert.
#[derive(Debug)]
pub struct KillNonCriticalServicesTweak {
    pub id: TweakId,
}

impl KillNonCriticalServicesTweak {
    pub fn new() -> (r: Self)
        ensures
            r.id == TweakId::KillAllNonCriticalServices,
    {
        Self { id: TweakId::KillAllNonCriticalServices }
    }

    /// The services to stop.
    pub fn services_to_kill() -> (r: Vec<&'static str>)
        ensures
            r@.map_values(|s: &'static str| s@) == services_to_kill_spec(),
    {
        let r = vec![
            "AdobeARMservice",
            "AdobeFlashPlayerUpdateSvc",
            "AdobeUpdateService",
            "AeLookupSvc",
            "AJRouter",
            "ALG",
            "AppIDSvc",
            "AppMgmt",
            "AppReadiness",
            "AppXSvc",
            "AssignedAccessManagerSvc",
            "AudioEndpointBuilder",
            "Audiosrv",
            "autotimesvc",
            "AxInstSV",
            "BDESVC",
            "BluetoothUserService",
            "BFE",
            "BITS",
            "Browser",
            "BthAvctpSvc",
            "BTAGService",
            "camsvc",
            "CaptureService",
            "CDPSvc",
            "CertPropSvc",
            "ClipSVC",
            "CryptSvc",
            "DiagTrack",
            "defragsvc",
            "DevQueryBroker",
            "DeviceAssociationService",
            "DevicesFlowUserSvc",
            "diagnosticshub",
            "DispBrokerDesktopSvc",
            "Dnscache",
            "DPS",
            "DsmSvc",
            "DusmSvc",
            "EFS",
            "EntAppSvc",
            "EventLog",
            "FrameServer",
            "GraphicsPerfSvc",
            "hidserv",
            "HvHost",
            "icssvc",
            "IKEEXT",
            "iphlpsvc",
            "lfsvc",
            "lmhosts",
            "InstallService",
            "irmon",
            "KeyIso",
            "LanmanWorkstation",
            "LanmanServer",
            "LicenseManager",
            "LxpSvc",
            "LSM",
            "MDCoreSvc",
            "mpssvc",
            "MSDTC",
            "MSiSCSI",
            "NaturalAuthentication",
            "NcbService",
            "NgcCtnrSvc",
            "NgcSvc",
            "NPSMSvc",
            "NVDisplay",
            "OneSyncSvc",
            "PcaSvc",
            "PhoneSvc",
            "PimIndexMaintenanceSvc",
            "pla",
            "PlugPlay",
            "PolicyAgent",
            "PrintNotify",
            "RasMan",
            "RtkAudioUniversalService",
            "SCardSvr",
            "ScDeviceEnum",
            "SCPolicySvc",
            "Schedule",
            "seclogon",
            "SEMgrSvc",
            "SensorDataService",
            "SensorService",
            "SensrSvc",
            "SessionEnv",
            "ShellHWDetection",
            "shpamsvc",
            "SSDPSRV",
            "SysMain",
            "TextInputManagementService",
            "Themes",
            "TokenBroker",
            "tzautoupdate",
            "WpnUserService",
            "OneSyncSvc",
            "wlidsvc",
            "WinHttpAutoProxySvc",
            "Wcmsvc"
        ];
        assert(r@.map_values(|s: &'static str| s@) =~= services_to_kill_spec());
        r
    }

    /// The tweak is an action: it is never reported as in force.
    pub fn initial_state(&self) -> (r: TweakOption)
        ensures
            r == TweakOption::Enabled(false),
    {
        TweakOption::Enabled(false)
    }

    /// Whether a service in the given state still has to be stopped.
    pub fn should_stop(current_state: u32) -> (r: bool)
        ensures
            r == (current_state != SERVICE_STOPPED),
    {
        current_state != SERVICE_STOPPED
    }

    /// The result of the whole run, from whether the service control manager
    /// could be opened (or the message of its failure). Failures to stop
    /// single services are logged and do not fail the run.
    pub fn apply_outcome(&self, manager: Result<(), String>) -> (r: Result<(), TweakError>)
        ensures
            match manager {
                Ok(_) => r is Ok,
                Err(e) => r == Err::<(), TweakError>(TweakError::WriteFailed { id: self.id, message: e }),
            },
    {
        match manager {
            Ok(_) => Ok(()),
            Err(e) => Err(TweakError::WriteFailed { id: self.id, message: e }),
        }
    }
}

} // verus!
