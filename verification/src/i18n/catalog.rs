//! Every text of the program, one row per key and one column per language.
//!
//! A row is an array with a place for each language, so leaving one out is an
//! error of the compiler and not a hole that a user finds.
use vstd::prelude::*;

use crate::i18n::Lang;

verus! {

/// What a text says, whatever the language.
#[derive(Debug, Clone, Copy, PartialEq, Eq, Structural)]
pub enum Key {
    CliAbout,
    CliCtrlC,
    CliDefaultMark,
    CliForgetHint,
    CliForgetOther,
    CliForgotten,
    CliHintMulticast,
    CliHintRecv,
    CliHintSameNet,
    CliHintUseTo,
    CliInputs,
    CliKeysAt,
    CliNoMic,
    CliNone,
    CliNothingPaired,
    CliNothingSeen,
    CliNothingUnder,
    CliOutputs,
    CliPairedHeading,
    CliPairingIsAutomatic,
    CliPointing,
    CliProtocolInstead,
    CliReceivers,
    CliSearching,
    CliSendWith,
    CliSinkLinux,
    CliSinkLinuxNote,
    CliSinkWindows,
    CliSinkWindowsNote,
    CliVirtualCable,
    DevicesFew,
    DevicesMany,
    DevicesOne,
    DocAllGood,
    DocBroken,
    DocPartial,
    DocTitle,
    ErrCannotBind,
    ErrCodeMismatch,
    ErrCtrlC,
    ErrDirIn,
    ErrDirOut,
    ErrInternal,
    ErrMdnsAnnounce,
    ErrMdnsBrowse,
    ErrMdnsStart,
    ErrNoConfigDir,
    ErrNoDefault,
    ErrNoDeviceIdx,
    ErrNoFormat,
    ErrNobodyTypedCode,
    ErrPairingCancelled,
    ErrPeerAbortedPairing,
    FramesN,
    HelpBitrate,
    HelpBufferMs,
    HelpCode,
    HelpDevice,
    HelpDevices,
    HelpDiscover,
    HelpDoctor,
    HelpDropPct,
    HelpFixedBuffer,
    HelpForget,
    HelpForgetPeer,
    HelpGain,
    HelpListen,
    HelpNoAnnounce,
    HelpPeers,
    HelpRecv,
    HelpSend,
    HelpSink,
    HelpTo,
    HelpVerbose,
    HelpWindowMs,
    LatencyLoss,
    NobodyListening,
    NumBitrate,
    NumCard,
    NumCushion,
    NumDrift,
    NumDropped,
    NumFec,
    NumFecFor,
    NumFrames,
    NumJitter,
    NumLost,
    NumPeak,
    NumStarved,
    PctLoss,
    Quit,
    SamplesN,
    SesCannotAnnounce,
    SesConversion,
    SesEnded,
    SesListening,
    SesPickMicDevice,
    SesPickMicNamed,
    SesSource,
    SesVisibleAs,
    SesWaitNext,
    ShowWindow,
    VnAddress,
    VnDevice,
    VnDigits,
    VnName,
    VnSink,
}

/// Every key.
pub const ALL: [Key; 107] = [
    Key::CliAbout,
    Key::CliCtrlC,
    Key::CliDefaultMark,
    Key::CliForgetHint,
    Key::CliForgetOther,
    Key::CliForgotten,
    Key::CliHintMulticast,
    Key::CliHintRecv,
    Key::CliHintSameNet,
    Key::CliHintUseTo,
    Key::CliInputs,
    Key::CliKeysAt,
    Key::CliNoMic,
    Key::CliNone,
    Key::CliNothingPaired,
    Key::CliNothingSeen,
    Key::CliNothingUnder,
    Key::CliOutputs,
    Key::CliPairedHeading,
    Key::CliPairingIsAutomatic,
    Key::CliPointing,
    Key::CliProtocolInstead,
    Key::CliReceivers,
    Key::CliSearching,
    Key::CliSendWith,
    Key::CliSinkLinux,
    Key::CliSinkLinuxNote,
    Key::CliSinkWindows,
    Key::CliSinkWindowsNote,
    Key::CliVirtualCable,
    Key::DevicesFew,
    Key::DevicesMany,
    Key::DevicesOne,
    Key::DocAllGood,
    Key::DocBroken,
    Key::DocPartial,
    Key::DocTitle,
    Key::ErrCannotBind,
    Key::ErrCodeMismatch,
    Key::ErrCtrlC,
    Key::ErrDirIn,
    Key::ErrDirOut,
    Key::ErrInternal,
    Key::ErrMdnsAnnounce,
    Key::ErrMdnsBrowse,
    Key::ErrMdnsStart,
    Key::ErrNoConfigDir,
    Key::ErrNoDefault,
    Key::ErrNoDeviceIdx,
    Key::ErrNoFormat,
    Key::ErrNobodyTypedCode,
    Key::ErrPairingCancelled,
    Key::ErrPeerAbortedPairing,
    Key::FramesN,
    Key::HelpBitrate,
    Key::HelpBufferMs,
    Key::HelpCode,
    Key::HelpDevice,
    Key::HelpDevices,
    Key::HelpDiscover,
    Key::HelpDoctor,
    Key::HelpDropPct,
    Key::HelpFixedBuffer,
    Key::HelpForget,
    Key::HelpForgetPeer,
    Key::HelpGain,
    Key::HelpListen,
    Key::HelpNoAnnounce,
    Key::HelpPeers,
    Key::HelpRecv,
    Key::HelpSend,
    Key::HelpSink,
    Key::HelpTo,
    Key::HelpVerbose,
    Key::HelpWindowMs,
    Key::LatencyLoss,
    Key::NobodyListening,
    Key::NumBitrate,
    Key::NumCard,
    Key::NumCushion,
    Key::NumDrift,
    Key::NumDropped,
    Key::NumFec,
    Key::NumFecFor,
    Key::NumFrames,
    Key::NumJitter,
    Key::NumLost,
    Key::NumPeak,
    Key::NumStarved,
    Key::PctLoss,
    Key::Quit,
    Key::SamplesN,
    Key::SesCannotAnnounce,
    Key::SesConversion,
    Key::SesEnded,
    Key::SesListening,
    Key::SesPickMicDevice,
    Key::SesPickMicNamed,
    Key::SesSource,
    Key::SesVisibleAs,
    Key::SesWaitNext,
    Key::ShowWindow,
    Key::VnAddress,
    Key::VnDevice,
    Key::VnDigits,
    Key::VnName,
    Key::VnSink,
];

pub const CLI_ABOUT: [&'static str; 7] = [
    "MicBridge — przenosi mikrofon z jednego komputera na drugi",
    "MicBridge — carries a microphone from one computer to another",
    "MicBridge — bringt ein Mikrofon von einem Computer auf einen anderen",
    "MicBridge — lleva un micrófono de un ordenador a otro",
    "MicBridge — transporte un micro d'un ordinateur à un autre",
    "MicBridge — porta un microfono da un computer a un altro",
    "MicBridge — переносить мікрофон з одного комп'ютера на інший",
];

pub const CLI_CTRL_C: [&'static str; 7] = [
    "Ctrl-C kończy.",
    "Ctrl-C stops.",
    "Strg-C beendet.",
    "Ctrl-C termina.",
    "Ctrl-C arrête.",
    "Ctrl-C termina.",
    "Ctrl-C завершує.",
];

pub const CLI_DEFAULT_MARK: [&'static str; 7] = [
    "* oznacza urządzenie domyślne. MicBridge pracuje przy {} Hz; inne częstotliwości przelicza.",
    "* marks the default device. MicBridge works at {} Hz; other rates are converted.",
    "* markiert das Standardgerät. MicBridge arbeitet mit {} Hz; andere Raten werden umgerechnet.",
    "* marca el dispositivo predeterminado. MicBridge trabaja a {} Hz; las demás frecuencias se convierten.",
    "* marque le périphérique par défaut. MicBridge travaille à {} Hz ; les autres fréquences sont converties.",
    "* indica il dispositivo predefinito. MicBridge lavora a {} Hz; le altre frequenze vengono convertite.",
    "* позначає типовий пристрій. MicBridge працює на {} Гц; інші частоти перераховуються.",
];

pub const CLI_FORGET_HINT: [&'static str; 7] = [
    "Zapomnij parowanie: micbridge forget <nazwa>",
    "Forget a pairing: micbridge forget <name>",
    "Kopplung vergessen: micbridge forget <Name>",
    "Olvidar un emparejamiento: micbridge forget <nombre>",
    "Oublier un appairage : micbridge forget <nom>",
    "Dimentica un abbinamento: micbridge forget <nome>",
    "Забути парування: micbridge forget <назва>",
];

pub const CLI_FORGET_OTHER: [&'static str; 7] = [
    "Zrób to samo na drugiej maszynie.",
    "Do the same on the other machine.",
    "Mach dasselbe auf dem anderen Computer.",
    "Haz lo mismo en la otra máquina.",
    "Faites de même sur l'autre machine.",
    "Fai lo stesso sull'altra macchina.",
    "Зробіть те саме на іншій машині.",
];

pub const CLI_FORGOTTEN: [&'static str; 7] = [
    "Zapomniano „{}”.",
    "Forgot “{}”.",
    "„{}“ vergessen.",
    "Olvidado «{}».",
    "« {} » oublié.",
    "Dimenticato «{}».",
    "Забуто «{}».",
];

pub const CLI_HINT_MULTICAST: [&'static str; 7] = [
    "  • router może blokować ruch multicast między klientami",
    "  • the router may block multicast between clients",
    "  • der Router blockiert vielleicht Multicast zwischen Geräten",
    "  • el router puede bloquear el multicast entre clientes",
    "  • le routeur bloque peut-être le multicast entre clients",
    "  • il router potrebbe bloccare il multicast tra i client",
    "  • роутер може блокувати multicast між клієнтами",
];

pub const CLI_HINT_RECV: [&'static str; 7] = [
    "  • uruchom `micbridge recv` na drugiej maszynie",
    "  • run `micbridge recv` on the other machine",
    "  • starte `micbridge recv` auf dem anderen Computer",
    "  • ejecuta `micbridge recv` en la otra máquina",
    "  • lancez `micbridge recv` sur l'autre machine",
    "  • avvia `micbridge recv` sull'altra macchina",
    "  • запустіть `micbridge recv` на іншій машині",
];

pub const CLI_HINT_SAME_NET: [&'static str; 7] = [
    "  • obie maszyny muszą być w tej samej sieci",
    "  • both machines must be on the same network",
    "  • beide Computer müssen im selben Netz sein",
    "  • ambas máquinas deben estar en la misma red",
    "  • les deux machines doivent être sur le même réseau",
    "  • entrambe le macchine devono essere nella stessa rete",
    "  • обидві машини мають бути в одній мережі",
];

pub const CLI_HINT_USE_TO: [&'static str; 7] = [
    "  • adres można podać wprost: --to 192.168.1.40",
    "  • an address can be given directly: --to 192.168.1.40",
    "  • die Adresse geht auch direkt: --to 192.168.1.40",
    "  • se puede dar la dirección: --to 192.168.1.40",
    "  • on peut donner l'adresse : --to 192.168.1.40",
    "  • si può indicare l'indirizzo: --to 192.168.1.40",
    "  • адресу можна вказати прямо: --to 192.168.1.40",
];

pub const CLI_INPUTS: [&'static str; 7] = [
    "Wejścia (mikrofony):",
    "Inputs (microphones):",
    "Eingänge (Mikrofone):",
    "Entradas (micrófonos):",
    "Entrées (micros) :",
    "Ingressi (microfoni):",
    "Входи (мікрофони):",
];

pub const CLI_KEYS_AT: [&'static str; 7] = [
    "Klucze leżą w {}",
    "The keys are in {}",
    "Die Schlüssel liegen in {}",
    "Las claves están en {}",
    "Les clés sont dans {}",
    "Le chiavi sono in {}",
    "Ключі лежать у {}",
];

pub const CLI_NO_MIC: [&'static str; 7] = [
    "Bez mikrofonu: --device {}",
    "Without a microphone: --device {}",
    "Ohne Mikrofon: --device {}",
    "Sin micrófono: --device {}",
    "Sans micro : --device {}",
    "Senza microfono: --device {}",
    "Без мікрофона: --device {}",
];

pub const CLI_NONE: [&'static str; 7] = [
    "  (brak)",
    "  (none)",
    "  (keine)",
    "  (ninguno)",
    "  (aucun)",
    "  (nessuno)",
    "  (немає)",
];

pub const CLI_NOTHING_PAIRED: [&'static str; 7] = [
    "Nic jeszcze nie sparowano.",
    "Nothing is paired yet.",
    "Noch nichts gekoppelt.",
    "Aún no hay nada emparejado.",
    "Rien n'est encore appairé.",
    "Ancora nessun abbinamento.",
    "Ще нічого не спаровано.",
];

pub const CLI_NOTHING_SEEN: [&'static str; 7] = [
    "Nie widzę żadnego odbiornika.",
    "I see no receiver.",
    "Ich sehe keinen Empfänger.",
    "No veo ningún receptor.",
    "Je ne vois aucun récepteur.",
    "Non vedo alcun ricevitore.",
    "Не бачу жодного приймача.",
];

pub const CLI_NOTHING_UNDER: [&'static str; 7] = [
    "Nic nie zapisano pod „{}”.",
    "Nothing is stored under “{}”.",
    "Unter „{}“ ist nichts gespeichert.",
    "No hay nada guardado con «{}».",
    "Rien n'est enregistré sous « {} ».",
    "Non c'è nulla sotto «{}».",
    "Під «{}» нічого не збережено.",
];

pub const CLI_OUTPUTS: [&'static str; 7] = [
    "Wyjścia (głośniki):",
    "Outputs (speakers):",
    "Ausgänge (Lautsprecher):",
    "Salidas (altavoces):",
    "Sorties (haut-parleurs) :",
    "Uscite (altoparlanti):",
    "Виходи (динаміки):",
];

pub const CLI_PAIRED_HEADING: [&'static str; 7] = [
    "Sparowane maszyny:",
    "Paired machines:",
    "Gekoppelte Computer:",
    "Máquinas emparejadas:",
    "Machines appairées :",
    "Macchine abbinate:",
    "Спаровані машини:",
];

pub const CLI_PAIRING_IS_AUTOMATIC: [&'static str; 7] = [
    "Parowanie zacznie się samo przy pierwszym połączeniu.",
    "Pairing starts by itself with the first connection.",
    "Die Kopplung beginnt von selbst bei der ersten Verbindung.",
    "El emparejamiento empieza solo con la primera conexión.",
    "L'appairage commence seul à la première connexion.",
    "L'abbinamento parte da solo alla prima connessione.",
    "Парування почнеться саме під час першого з'єднання.",
];

pub const CLI_POINTING: [&'static str; 7] = [
    "Wskazywanie: --device @3 albo fragment nazwy, np. --device yeti",
    "Pointing: --device @3 or part of a name, e.g. --device yeti",
    "Auswahl: --device @3 oder ein Teil des Namens, z. B. --device yeti",
    "Selección: --device @3 o parte del nombre, p. ej. --device yeti",
    "Choix : --device @3 ou une partie du nom, p. ex. --device yeti",
    "Scelta: --device @3 o parte del nome, p. es. --device yeti",
    "Вибір: --device @3 або частина назви, напр. --device yeti",
];

pub const CLI_PROTOCOL_INSTEAD: [&'static str; 7] = [
    "protokół {}, potrzebny {}",
    "protocol {}, needed {}",
    "Protokoll {}, nötig {}",
    "protocolo {}, se necesita {}",
    "protocole {}, il faut {}",
    "protocollo {}, serve {}",
    "протокол {}, потрібен {}",
];

pub const CLI_RECEIVERS: [&'static str; 7] = [
    "Odbiorniki w sieci:",
    "Receivers on the network:",
    "Empfänger im Netz:",
    "Receptores en la red:",
    "Récepteurs sur le réseau :",
    "Ricevitori nella rete:",
    "Приймачі в мережі:",
];

pub const CLI_SEARCHING: [&'static str; 7] = [
    "Szukam odbiorników przez {} ms…",
    "Looking for receivers for {} ms…",
    "Suche {} ms lang nach Empfängern…",
    "Buscando receptores durante {} ms…",
    "Recherche de récepteurs pendant {} ms…",
    "Cerco ricevitori per {} ms…",
    "Шукаю приймачі {} мс…",
];

pub const CLI_SEND_WITH: [&'static str; 7] = [
    "Wyślij mikrofon: micbridge send --to \"{}\"",
    "Send the microphone: micbridge send --to \"{}\"",
    "Mikrofon senden: micbridge send --to \"{}\"",
    "Enviar el micrófono: micbridge send --to \"{}\"",
    "Envoyer le micro : micbridge send --to \"{}\"",
    "Invia il microfono: micbridge send --to \"{}\"",
    "Надіслати мікрофон: micbridge send --to \"{}\"",
];

pub const CLI_SINK_LINUX: [&'static str; 7] = [
    "Ujście w Linuksie: własny mikrofon „{}”.",
    "Sink on Linux: a microphone of its own, “{}”.",
    "Ziel unter Linux: ein eigenes Mikrofon, „{}“.",
    "Destino en Linux: un micrófono propio, «{}».",
    "Sortie sous Linux : un micro à part, « {} ».",
    "Uscita su Linux: un microfono proprio, «{}».",
    "Вихід у Linux: власний мікрофон «{}».",
];

pub const CLI_SINK_LINUX_NOTE: [&'static str; 7] = [
    "Pojawia się, gdy odbiornik ma sesję.",
    "It appears while the receiver has a session.",
    "Es erscheint, solange der Empfänger eine Sitzung hat.",
    "Aparece mientras el receptor tiene una sesión.",
    "Il apparaît tant que le récepteur a une session.",
    "Compare finché il ricevitore ha una sessione.",
    "З'являється, поки приймач має сеанс.",
];

pub const CLI_SINK_WINDOWS: [&'static str; 7] = [
    "Ujście w Windows: wirtualny kabel (np. VB-CABLE).",
    "Sink on Windows: a virtual cable (e.g. VB-CABLE).",
    "Ziel unter Windows: ein virtuelles Kabel (z. B. VB-CABLE).",
    "Destino en Windows: un cable virtual (p. ej. VB-CABLE).",
    "Sortie sous Windows : un câble virtuel (p. ex. VB-CABLE).",
    "Uscita su Windows: un cavo virtuale (p. es. VB-CABLE).",
    "Вихід у Windows: віртуальний кабель (напр. VB-CABLE).",
];

pub const CLI_SINK_WINDOWS_NOTE: [&'static str; 7] = [
    "W aplikacji wybierz drugi koniec kabla jako mikrofon.",
    "In the application pick the other end of the cable as the microphone.",
    "Wähle in der Anwendung das andere Kabelende als Mikrofon.",
    "En la aplicación elige el otro extremo del cable como micrófono.",
    "Dans l'application, choisissez l'autre bout du câble comme micro.",
    "Nell'applicazione scegli l'altro capo del cavo come microfono.",
    "У програмі виберіть інший кінець кабелю як мікрофон.",
];

pub const CLI_VIRTUAL_CABLE: [&'static str; 7] = [
    "  ← wirtualny kabel",
    "  ← virtual cable",
    "  ← virtuelles Kabel",
    "  ← cable virtual",
    "  ← câble virtuel",
    "  ← cavo virtuale",
    "  ← віртуальний кабель",
];

pub const DEVICES_FEW: [&'static str; 7] = [
    "urządzenia",
    "devices",
    "Geräte",
    "dispositivos",
    "périphériques",
    "dispositivi",
    "пристрої",
];

pub const DEVICES_MANY: [&'static str; 7] = [
    "urządzeń",
    "devices",
    "Geräte",
    "dispositivos",
    "périphériques",
    "dispositivi",
    "пристроїв",
];

pub const DEVICES_ONE: [&'static str; 7] = [
    "urządzenie",
    "device",
    "Gerät",
    "dispositivo",
    "périphérique",
    "dispositivo",
    "пристрій",
];

pub const DOC_ALL_GOOD: [&'static str; 7] = [
    "Wszystko gotowe.",
    "Everything is ready.",
    "Alles bereit.",
    "Todo listo.",
    "Tout est prêt.",
    "Tutto pronto.",
    "Усе готово.",
];

pub const DOC_BROKEN: [&'static str; 7] = [
    "Tak nie zadziała: popraw to, co oznaczono jako błąd.",
    "It will not work like this: fix what is marked as failed.",
    "So geht es nicht: behebe, was als Fehler markiert ist.",
    "Así no funcionará: corrige lo marcado como fallo.",
    "Cela ne marchera pas ainsi : corrigez ce qui est en échec.",
    "Così non funziona: correggi ciò che è segnato come errore.",
    "Так не запрацює: виправте позначене як помилку.",
];

pub const DOC_PARTIAL: [&'static str; 7] = [
    "Zadziała, ale nie w obie strony albo nie tak dobrze, jak mogłoby.",
    "It will work, but not both ways or not as well as it could.",
    "Es geht, aber nicht in beide Richtungen oder nicht so gut wie möglich.",
    "Funcionará, pero no en ambos sentidos o no tan bien como podría.",
    "Cela marchera, mais pas dans les deux sens ou pas aussi bien que possible.",
    "Funziona, ma non in entrambi i sensi o non al meglio.",
    "Працюватиме, але не в обидва боки або не так добре, як могло б.",
];

pub const DOC_TITLE: [&'static str; 7] = [
    "Przegląd gotowości",
    "Readiness check",
    "Bereitschaftsprüfung",
    "Comprobación",
    "Vérification",
    "Verifica",
    "Перевірка готовності",
];

pub const ERR_CANNOT_BIND: [&'static str; 7] = [
    "nie mogę nasłuchiwać na {}",
    "cannot listen on {}",
    "kann nicht auf {} lauschen",
    "no puedo escuchar en {}",
    "impossible d'écouter sur {}",
    "impossibile ascoltare su {}",
    "не можу слухати на {}",
];

pub const ERR_CODE_MISMATCH: [&'static str; 7] = [
    "kody się nie zgadzają",
    "the codes do not match",
    "die Codes stimmen nicht überein",
    "los códigos no coinciden",
    "les codes ne correspondent pas",
    "i codici non coincidono",
    "коди не збігаються",
];

pub const ERR_CTRL_C: [&'static str; 7] = [
    "nie mogę przechwycić Ctrl-C",
    "cannot catch Ctrl-C",
    "kann Strg-C nicht abfangen",
    "no puedo capturar Ctrl-C",
    "impossible d'intercepter Ctrl-C",
    "impossibile intercettare Ctrl-C",
    "не можу перехопити Ctrl-C",
];

pub const ERR_DIR_IN: [&'static str; 7] = [
    "wejściowego",
    "input",
    "Eingabe",
    "de entrada",
    "d'entrée",
    "di ingresso",
    "вхідного",
];

pub const ERR_DIR_OUT: [&'static str; 7] = [
    "wyjściowego",
    "output",
    "Ausgabe",
    "de salida",
    "de sortie",
    "di uscita",
    "вихідного",
];

pub const ERR_INTERNAL: [&'static str; 7] = [
    "błąd wewnętrzny",
    "internal error",
    "interner Fehler",
    "error interno",
    "erreur interne",
    "errore interno",
    "внутрішня помилка",
];

pub const ERR_MDNS_ANNOUNCE: [&'static str; 7] = [
    "nie mogę ogłosić się w sieci: {}",
    "cannot announce on the network: {}",
    "kann mich im Netz nicht bekannt machen: {}",
    "no puedo anunciarme en la red: {}",
    "impossible de s'annoncer sur le réseau : {}",
    "impossibile annunciarsi nella rete: {}",
    "не можу оголоситися в мережі: {}",
];

pub const ERR_MDNS_BROWSE: [&'static str; 7] = [
    "nie mogę przeszukać sieci: {}",
    "cannot search the network: {}",
    "kann das Netz nicht durchsuchen: {}",
    "no puedo buscar en la red: {}",
    "impossible de parcourir le réseau : {}",
    "impossibile cercare nella rete: {}",
    "не можу шукати в мережі: {}",
];

pub const ERR_MDNS_START: [&'static str; 7] = [
    "nie mogę uruchomić mDNS: {}",
    "cannot start mDNS: {}",
    "kann mDNS nicht starten: {}",
    "no puedo iniciar mDNS: {}",
    "impossible de démarrer mDNS : {}",
    "impossibile avviare mDNS: {}",
    "не можу запустити mDNS: {}",
];

pub const ERR_NO_CONFIG_DIR: [&'static str; 7] = [
    "nie wiem, gdzie trzymać ustawienia",
    "I do not know where to keep settings",
    "ich weiß nicht, wo Einstellungen liegen sollen",
    "no sé dónde guardar los ajustes",
    "je ne sais pas où garder les réglages",
    "non so dove tenere le impostazioni",
    "не знаю, де зберігати налаштування",
];

pub const ERR_NO_DEFAULT: [&'static str; 7] = [
    "brak domyślnego urządzenia {}",
    "no default {} device",
    "kein Standardgerät für {}",
    "no hay dispositivo {} predeterminado",
    "pas de périphérique {} par défaut",
    "nessun dispositivo {} predefinito",
    "немає типового {} пристрою",
];

pub const ERR_NO_DEVICE_IDX: [&'static str; 7] = [
    "brak urządzenia {} o numerze {}",
    "no {} device with number {}",
    "kein Gerät für {} mit der Nummer {}",
    "no hay dispositivo {} con el número {}",
    "pas de périphérique {} numéro {}",
    "nessun dispositivo {} con il numero {}",
    "немає {} пристрою з номером {}",
];

pub const ERR_NO_FORMAT: [&'static str; 7] = [
    "urządzenie „{}” nie podaje żadnego formatu",
    "device “{}” offers no format",
    "Gerät „{}“ bietet kein Format an",
    "el dispositivo «{}» no ofrece ningún formato",
    "le périphérique « {} » n'offre aucun format",
    "il dispositivo «{}» non offre alcun formato",
    "пристрій «{}» не пропонує жодного формату",
];

pub const ERR_NOBODY_TYPED_CODE: [&'static str; 7] = [
    "nikt nie wpisał kodu",
    "nobody typed the code",
    "niemand hat den Code eingegeben",
    "nadie escribió el código",
    "personne n'a saisi le code",
    "nessuno ha digitato il codice",
    "ніхто не ввів код",
];

pub const ERR_PAIRING_CANCELLED: [&'static str; 7] = [
    "parowanie przerwane",
    "pairing cancelled",
    "Kopplung abgebrochen",
    "emparejamiento cancelado",
    "appairage annulé",
    "abbinamento annullato",
    "парування перервано",
];

pub const ERR_PEER_ABORTED_PAIRING: [&'static str; 7] = [
    "druga strona przerwała parowanie: {}",
    "the other side aborted the pairing: {}",
    "die andere Seite hat die Kopplung abgebrochen: {}",
    "la otra parte interrumpió el emparejamiento: {}",
    "l'autre côté a interrompu l'appairage : {}",
    "l'altra parte ha interrotto l'abbinamento: {}",
    "інша сторона перервала парування: {}",
];

pub const FRAMES_N: [&'static str; 7] = [
    "{} ramek",
    "{} frames",
    "{} Rahmen",
    "{} tramas",
    "{} trames",
    "{} frame",
    "{} кадрів",
];

pub const HELP_BITRATE: [&'static str; 7] = [
    "Przepływność Opusa. 24 kbps jest przezroczyste dla mowy.",
    "Opus bitrate. 24 kbps is transparent for speech.",
    "Opus-Bitrate. 24 kbps ist für Sprache transparent.",
    "Tasa de bits de Opus. 24 kbps es transparente para la voz.",
    "Débit Opus. 24 kbps est transparent pour la parole.",
    "Bitrate di Opus. 24 kbps è trasparente per la voce.",
    "Бітрейт Opus. 24 кбіт/с прозорі для мовлення.",
];

pub const HELP_BUFFER_MS: [&'static str; 7] = [
    "Startowa głębokość bufora jitter.",
    "Initial depth of the jitter buffer.",
    "Anfangstiefe des Jitter-Puffers.",
    "Profundidad inicial del búfer de jitter.",
    "Profondeur initiale du tampon de gigue.",
    "Profondità iniziale del buffer di jitter.",
    "Початкова глибина буфера джитера.",
];

pub const HELP_CODE: [&'static str; 7] = [
    "Kod parowania, gdy nie ma gdzie go wpisać (skrypty, usługi).",
    "Pairing code, where there is no place to type it (scripts, services).",
    "Kopplungscode, wo man ihn nicht eintippen kann (Skripte, Dienste).",
    "Código de emparejamiento, donde no se puede escribir (scripts, servicios).",
    "Code d'appairage, là où on ne peut pas le saisir (scripts, services).",
    "Codice di abbinamento, dove non si può digitare (script, servizi).",
    "Код парування, коли його ніде ввести (скрипти, служби).",
];

pub const HELP_DEVICE: [&'static str; 7] = [
    "Źródło: `default`, `@3` albo fragment nazwy, np. `yeti`.",
    "Source: `default`, `@3` or part of a name, e.g. `yeti`.",
    "Quelle: `default`, `@3` oder ein Teil des Namens, z. B. `yeti`.",
    "Fuente: `default`, `@3` o parte del nombre, p. ej. `yeti`.",
    "Source : `default`, `@3` ou une partie du nom, p. ex. `yeti`.",
    "Sorgente: `default`, `@3` o parte del nome, p. es. `yeti`.",
    "Джерело: `default`, `@3` або частина назви, напр. `yeti`.",
];

pub const HELP_DEVICES: [&'static str; 7] = [
    "Wypisz urządzenia audio widoczne w systemie",
    "List the audio devices of this system",
    "Audiogeräte dieses Systems auflisten",
    "Listar los dispositivos de audio del sistema",
    "Lister les périphériques audio du système",
    "Elenca i dispositivi audio del sistema",
    "Показати аудіопристрої системи",
];

pub const HELP_DISCOVER: [&'static str; 7] = [
    "Pokaż odbiorniki widoczne w sieci lokalnej",
    "Show the receivers on the local network",
    "Empfänger im lokalen Netz zeigen",
    "Mostrar los receptores de la red local",
    "Montrer les récepteurs du réseau local",
    "Mostra i ricevitori della rete locale",
    "Показати приймачі в локальній мережі",
];

pub const HELP_DOCTOR: [&'static str; 7] = [
    "Sprawdź, czy ta maszyna jest gotowa wysyłać i odbierać",
    "Check whether this machine is ready to send and receive",
    "Prüfen, ob dieser Computer senden und empfangen kann",
    "Comprobar si esta máquina puede enviar y recibir",
    "Vérifier que cette machine peut envoyer et recevoir",
    "Verifica se questa macchina può inviare e ricevere",
    "Перевірити, чи готова ця машина надсилати й приймати",
];

pub const HELP_DROP_PCT: [&'static str; 7] = [
    "Diagnostyka: gub celowo tyle procent pakietów, żeby sprawdzić FEC.",
    "Diagnostics: drop so many percent of packets on purpose, to try FEC.",
    "Diagnose: so viel Prozent der Pakete absichtlich verwerfen, um FEC zu prüfen.",
    "Diagnóstico: perder a propósito este porcentaje de paquetes para probar FEC.",
    "Diagnostic : perdre exprès ce pourcentage de paquets pour essayer FEC.",
    "Diagnostica: perdere di proposito questa percentuale di pacchetti per provare FEC.",
    "Діагностика: навмисно губити стільки відсотків пакетів, щоб перевірити FEC.",
];

pub const HELP_FIXED_BUFFER: [&'static str; 7] = [
    "Nie dopasowuj poduszki do jakości łącza — trzymaj zadaną wartość.",
    "Do not adapt the cushion to the link — keep the given value.",
    "Puffer nicht an die Verbindung anpassen — Wert beibehalten.",
    "No adaptar el margen al enlace: mantener el valor dado.",
    "Ne pas adapter le tampon à la liaison — garder la valeur donnée.",
    "Non adattare il margine al collegamento: tieni il valore dato.",
    "Не підлаштовувати запас до каналу — тримати задане значення.",
];

pub const HELP_FORGET: [&'static str; 7] = [
    "Zapomnij parowanie z podaną maszyną",
    "Forget the pairing with a machine",
    "Kopplung mit einem Computer vergessen",
    "Olvidar el emparejamiento con una máquina",
    "Oublier l'appairage avec une machine",
    "Dimentica l'abbinamento con una macchina",
    "Забути парування з машиною",
];

pub const HELP_FORGET_PEER: [&'static str; 7] = [
    "Nazwa z listy `peers`.",
    "A name from the `peers` list.",
    "Ein Name aus der Liste `peers`.",
    "Un nombre de la lista `peers`.",
    "Un nom de la liste `peers`.",
    "Un nome dall'elenco `peers`.",
    "Назва зі списку `peers`.",
];

pub const HELP_GAIN: [&'static str; 7] = [
    "Wzmocnienie w decybelach, dodatnie podbija cichy mikrofon.",
    "Gain in decibels; positive lifts a quiet microphone.",
    "Verstärkung in Dezibel; positiv hebt ein leises Mikrofon an.",
    "Ganancia en decibelios; positiva realza un micrófono bajo.",
    "Gain en décibels ; positif relève un micro faible.",
    "Guadagno in decibel; positivo alza un microfono basso.",
    "Підсилення в децибелах; додатне піднімає тихий мікрофон.",
];

pub const HELP_LISTEN: [&'static str; 7] = [
    "Interfejs i port do nasłuchu.",
    "Interface and port to listen on.",
    "Schnittstelle und Port zum Lauschen.",
    "Interfaz y puerto de escucha.",
    "Interface et port d'écoute.",
    "Interfaccia e porta di ascolto.",
    "Інтерфейс і порт для прослуховування.",
];

pub const HELP_NO_ANNOUNCE: [&'static str; 7] = [
    "Nie ogłaszaj się w sieci — druga strona poda adres ręcznie.",
    "Do not announce on the network — the other side gives the address by hand.",
    "Nicht im Netz bekannt machen — die andere Seite gibt die Adresse selbst an.",
    "No anunciarse en la red: la otra parte dará la dirección a mano.",
    "Ne pas s'annoncer sur le réseau — l'autre côté donne l'adresse à la main.",
    "Non annunciarsi nella rete: l'altra parte darà l'indirizzo a mano.",
    "Не оголошуватися в мережі — інша сторона вкаже адресу вручну.",
];

pub const HELP_PEERS: [&'static str; 7] = [
    "Wypisz sparowane maszyny",
    "List the paired machines",
    "Gekoppelte Computer auflisten",
    "Listar las máquinas emparejadas",
    "Lister les machines appairées",
    "Elenca le macchine abbinate",
    "Показати спаровані машини",
];

pub const HELP_RECV: [&'static str; 7] = [
    "Odbieraj mikrofon i wpuszczaj go w wirtualne urządzenie",
    "Receive a microphone and feed it into a virtual device",
    "Ein Mikrofon empfangen und in ein virtuelles Gerät leiten",
    "Recibir un micrófono y llevarlo a un dispositivo virtual",
    "Recevoir un micro et l'envoyer dans un périphérique virtuel",
    "Ricevi un microfono e portalo in un dispositivo virtuale",
    "Приймати мікрофон і подавати його у віртуальний пристрій",
];

pub const HELP_SEND: [&'static str; 7] = [
    "Wysyłaj mikrofon do drugiego komputera",
    "Send a microphone to the other computer",
    "Ein Mikrofon an den anderen Computer senden",
    "Enviar un micrófono al otro ordenador",
    "Envoyer un micro à l'autre ordinateur",
    "Invia un microfono all'altro computer",
    "Надсилати мікрофон на інший комп'ютер",
];

pub const HELP_SINK: [&'static str; 7] = [
    "Ujście: `auto`, `virtual`, `device` albo fragment nazwy urządzenia.",
    "Sink: `auto`, `virtual`, `device` or part of a device name.",
    "Ziel: `auto`, `virtual`, `device` oder ein Teil des Gerätenamens.",
    "Destino: `auto`, `virtual`, `device` o parte del nombre del dispositivo.",
    "Sortie : `auto`, `virtual`, `device` ou une partie du nom du périphérique.",
    "Uscita: `auto`, `virtual`, `device` o parte del nome del dispositivo.",
    "Вихід: `auto`, `virtual`, `device` або частина назви пристрою.",
];

pub const HELP_TO: [&'static str; 7] = [
    "Odbiornik: adres, `adres:port` albo nazwa z `micbridge discover`.",
    "Receiver: an address, `address:port` or a name from `micbridge discover`.",
    "Empfänger: Adresse, `Adresse:Port` oder ein Name aus `micbridge discover`.",
    "Receptor: dirección, `dirección:puerto` o un nombre de `micbridge discover`.",
    "Récepteur : adresse, `adresse:port` ou un nom de `micbridge discover`.",
    "Ricevitore: indirizzo, `indirizzo:porta` o un nome da `micbridge discover`.",
    "Приймач: адреса, `адреса:порт` або назва з `micbridge discover`.",
];

pub const HELP_VERBOSE: [&'static str; 7] = [
    "Więcej logów (można powtórzyć: -vv).",
    "More logs (may be repeated: -vv).",
    "Mehr Protokoll (wiederholbar: -vv).",
    "Más registros (se puede repetir: -vv).",
    "Plus de journaux (répétable : -vv).",
    "Più log (ripetibile: -vv).",
    "Більше журналів (можна повторити: -vv).",
];

pub const HELP_WINDOW_MS: [&'static str; 7] = [
    "Jak długo słuchać odpowiedzi.",
    "How long to listen for answers.",
    "Wie lange auf Antworten gewartet wird.",
    "Cuánto tiempo esperar respuestas.",
    "Combien de temps écouter les réponses.",
    "Quanto attendere le risposte.",
    "Як довго чекати відповідей.",
];

pub const LATENCY_LOSS: [&'static str; 7] = [
    "opóźnienie {} ms, straty {}%",
    "latency {} ms, loss {}%",
    "Latenz {} ms, Verlust {}%",
    "latencia {} ms, pérdida {}%",
    "latence {} ms, pertes {}%",
    "latenza {} ms, perdite {}%",
    "затримка {} мс, втрати {}%",
];

pub const NOBODY_LISTENING: [&'static str; 7] = [
    "czekam — nikt jeszcze nie słucha",
    "waiting — nobody is listening yet",
    "warte — noch hört niemand zu",
    "esperando: aún no escucha nadie",
    "en attente — personne n'écoute encore",
    "in attesa: nessuno ascolta ancora",
    "чекаю — ще ніхто не слухає",
];

pub const NUM_BITRATE: [&'static str; 7] = [
    "Przepływność",
    "Bitrate",
    "Bitrate",
    "Tasa de bits",
    "Débit",
    "Bitrate",
    "Бітрейт",
];

pub const NUM_CARD: [&'static str; 7] = [
    "Karta",
    "Card",
    "Karte",
    "Tarjeta",
    "Carte",
    "Scheda",
    "Карта",
];

pub const NUM_CUSHION: [&'static str; 7] = [
    "Poduszka",
    "Cushion",
    "Puffer",
    "Margen",
    "Tampon",
    "Margine",
    "Запас",
];

pub const NUM_DRIFT: [&'static str; 7] = [
    "Dryf zegarów",
    "Clock drift",
    "Taktdrift",
    "Deriva de reloj",
    "Dérive d'horloge",
    "Deriva del clock",
    "Дрейф годинників",
];

pub const NUM_DROPPED: [&'static str; 7] = [
    "Wyrzucono",
    "Dropped",
    "Verworfen",
    "Descartado",
    "Écarté",
    "Scartati",
    "Викинуто",
];

pub const NUM_FEC: [&'static str; 7] = [
    "Odtworzono",
    "Recovered",
    "Rekonstruiert",
    "Recuperado",
    "Récupéré",
    "Recuperati",
    "Відновлено",
];

pub const NUM_FEC_FOR: [&'static str; 7] = [
    "Korekcja na",
    "Correction for",
    "Korrektur für",
    "Corrección para",
    "Correction pour",
    "Correzione per",
    "Корекція на",
];

pub const NUM_FRAMES: [&'static str; 7] = [
    "Ramki",
    "Frames",
    "Rahmen",
    "Tramas",
    "Trames",
    "Frame",
    "Кадри",
];

pub const NUM_JITTER: [&'static str; 7] = [
    "Jitter",
    "Jitter",
    "Jitter",
    "Jitter",
    "Gigue",
    "Jitter",
    "Джитер",
];

pub const NUM_LOST: [&'static str; 7] = [
    "Zgubiono",
    "Lost",
    "Verloren",
    "Perdido",
    "Perdu",
    "Persi",
    "Загублено",
];

pub const NUM_PEAK: [&'static str; 7] = [
    "Szczyt",
    "Peak",
    "Spitze",
    "Pico",
    "Crête",
    "Picco",
    "Пік",
];

pub const NUM_STARVED: [&'static str; 7] = [
    "Niedomiar",
    "Starved",
    "Unterlauf",
    "Falta",
    "Manque",
    "Mancanti",
    "Нестача",
];

pub const PCT_LOSS: [&'static str; 7] = [
    "{}% strat",
    "{}% loss",
    "{}% Verlust",
    "{}% de pérdida",
    "{}% de pertes",
    "{}% di perdite",
    "{}% втрат",
];

pub const QUIT: [&'static str; 7] = [
    "Zakończ",
    "Quit",
    "Beenden",
    "Salir",
    "Quitter",
    "Esci",
    "Вийти",
];

pub const SAMPLES_N: [&'static str; 7] = [
    "{} próbek",
    "{} samples",
    "{} Samples",
    "{} muestras",
    "{} échantillons",
    "{} campioni",
    "{} семплів",
];

pub const SES_CANNOT_ANNOUNCE: [&'static str; 7] = [
    "Nie mogę ogłosić się w sieci; druga strona musi podać adres.",
    "Cannot announce on the network; the other side has to give the address.",
    "Keine Bekanntmachung im Netz möglich; die andere Seite muss die Adresse angeben.",
    "No puedo anunciarme en la red; la otra parte debe dar la dirección.",
    "Impossible de s'annoncer sur le réseau ; l'autre côté doit donner l'adresse.",
    "Impossibile annunciarsi nella rete; l'altra parte deve dare l'indirizzo.",
    "Не можу оголоситися в мережі; інша сторона має вказати адресу.",
];

pub const SES_CONVERSION: [&'static str; 7] = [
    "Konwersja {} Hz → {} Hz.",
    "Converting {} Hz → {} Hz.",
    "Umrechnung {} Hz → {} Hz.",
    "Conversión {} Hz → {} Hz.",
    "Conversion {} Hz → {} Hz.",
    "Conversione {} Hz → {} Hz.",
    "Перетворення {} Гц → {} Гц.",
];

pub const SES_ENDED: [&'static str; 7] = [
    "Sesja zakończona: {}",
    "Session ended: {}",
    "Sitzung beendet: {}",
    "Sesión terminada: {}",
    "Session terminée : {}",
    "Sessione terminata: {}",
    "Сеанс завершено: {}",
];

pub const SES_LISTENING: [&'static str; 7] = [
    "Nasłuchuję na {}.",
    "Listening on {}.",
    "Lausche auf {}.",
    "Escuchando en {}.",
    "À l'écoute sur {}.",
    "In ascolto su {}.",
    "Слухаю на {}.",
];

pub const SES_PICK_MIC_DEVICE: [&'static str; 7] = [
    "  W aplikacji wybierz drugi koniec wirtualnego kabla jako mikrofon.",
    "  In the application pick the other end of the virtual cable as the microphone.",
    "  Wähle in der Anwendung das andere Ende des virtuellen Kabels als Mikrofon.",
    "  En la aplicación elige el otro extremo del cable virtual como micrófono.",
    "  Dans l'application, choisissez l'autre bout du câble virtuel comme micro.",
    "  Nell'applicazione scegli l'altro capo del cavo virtuale come microfono.",
    "  У програмі виберіть інший кінець віртуального кабелю як мікрофон.",
];

pub const SES_PICK_MIC_NAMED: [&'static str; 7] = [
    "  W aplikacji wybierz mikrofon „{}”.",
    "  In the application pick the microphone “{}”.",
    "  Wähle in der Anwendung das Mikrofon „{}“.",
    "  En la aplicación elige el micrófono «{}».",
    "  Dans l'application, choisissez le micro « {} ».",
    "  Nell'applicazione scegli il microfono «{}».",
    "  У програмі виберіть мікрофон «{}».",
];

pub const SES_SOURCE: [&'static str; 7] = [
    "{} (źródło: {})",
    "{} (source: {})",
    "{} (Quelle: {})",
    "{} (fuente: {})",
    "{} (source : {})",
    "{} (sorgente: {})",
    "{} (джерело: {})",
];

pub const SES_VISIBLE_AS: [&'static str; 7] = [
    "Widać mnie w sieci jako „{}”.",
    "Visible on the network as “{}”.",
    "Im Netz sichtbar als „{}“.",
    "Visible en la red como «{}».",
    "Visible sur le réseau comme « {} ».",
    "Visibile in rete come «{}».",
    "Видно в мережі як «{}».",
];

pub const SES_WAIT_NEXT: [&'static str; 7] = [
    "Czekam na następne połączenie.",
    "Waiting for the next connection.",
    "Warte auf die nächste Verbindung.",
    "Esperando la siguiente conexión.",
    "En attente de la prochaine connexion.",
    "In attesa della prossima connessione.",
    "Чекаю на наступне з'єднання.",
];

pub const SHOW_WINDOW: [&'static str; 7] = [
    "Pokaż okno",
    "Show window",
    "Fenster zeigen",
    "Mostrar ventana",
    "Afficher la fenêtre",
    "Mostra finestra",
    "Показати вікно",
];

pub const VN_ADDRESS: [&'static str; 7] = [
    "ADRES",
    "ADDRESS",
    "ADRESSE",
    "DIRECCIÓN",
    "ADRESSE",
    "INDIRIZZO",
    "АДРЕСА",
];

pub const VN_DEVICE: [&'static str; 7] = [
    "URZĄDZENIE",
    "DEVICE",
    "GERÄT",
    "DISPOSITIVO",
    "PÉRIPHÉRIQUE",
    "DISPOSITIVO",
    "ПРИСТРІЙ",
];

pub const VN_DIGITS: [&'static str; 7] = [
    "CYFRY",
    "DIGITS",
    "ZIFFERN",
    "CIFRAS",
    "CHIFFRES",
    "CIFRE",
    "ЦИФРИ",
];

pub const VN_NAME: [&'static str; 7] = [
    "NAZWA",
    "NAME",
    "NAME",
    "NOMBRE",
    "NOM",
    "NOME",
    "НАЗВА",
];

pub const VN_SINK: [&'static str; 7] = [
    "UJŚCIE",
    "SINK",
    "ZIEL",
    "DESTINO",
    "SORTIE",
    "USCITA",
    "ВИХІД",
];

/// The row of a key: its text in Polish, English, German, Spanish, French,
/// Italian and Ukrainian.
pub open spec fn row_of(key: Key) -> [&'static str; 7] {
    match key {
        Key::CliAbout => CLI_ABOUT,
        Key::CliCtrlC => CLI_CTRL_C,
        Key::CliDefaultMark => CLI_DEFAULT_MARK,
        Key::CliForgetHint => CLI_FORGET_HINT,
        Key::CliForgetOther => CLI_FORGET_OTHER,
        Key::CliForgotten => CLI_FORGOTTEN,
        Key::CliHintMulticast => CLI_HINT_MULTICAST,
        Key::CliHintRecv => CLI_HINT_RECV,
        Key::CliHintSameNet => CLI_HINT_SAME_NET,
        Key::CliHintUseTo => CLI_HINT_USE_TO,
        Key::CliInputs => CLI_INPUTS,
        Key::CliKeysAt => CLI_KEYS_AT,
        Key::CliNoMic => CLI_NO_MIC,
        Key::CliNone => CLI_NONE,
        Key::CliNothingPaired => CLI_NOTHING_PAIRED,
        Key::CliNothingSeen => CLI_NOTHING_SEEN,
        Key::CliNothingUnder => CLI_NOTHING_UNDER,
        Key::CliOutputs => CLI_OUTPUTS,
        Key::CliPairedHeading => CLI_PAIRED_HEADING,
        Key::CliPairingIsAutomatic => CLI_PAIRING_IS_AUTOMATIC,
        Key::CliPointing => CLI_POINTING,
        Key::CliProtocolInstead => CLI_PROTOCOL_INSTEAD,
        Key::CliReceivers => CLI_RECEIVERS,
        Key::CliSearching => CLI_SEARCHING,
        Key::CliSendWith => CLI_SEND_WITH,
        Key::CliSinkLinux => CLI_SINK_LINUX,
        Key::CliSinkLinuxNote => CLI_SINK_LINUX_NOTE,
        Key::CliSinkWindows => CLI_SINK_WINDOWS,
        Key::CliSinkWindowsNote => CLI_SINK_WINDOWS_NOTE,
        Key::CliVirtualCable => CLI_VIRTUAL_CABLE,
        Key::DevicesFew => DEVICES_FEW,
        Key::DevicesMany => DEVICES_MANY,
        Key::DevicesOne => DEVICES_ONE,
        Key::DocAllGood => DOC_ALL_GOOD,
        Key::DocBroken => DOC_BROKEN,
        Key::DocPartial => DOC_PARTIAL,
        Key::DocTitle => DOC_TITLE,
        Key::ErrCannotBind => ERR_CANNOT_BIND,
        Key::ErrCodeMismatch => ERR_CODE_MISMATCH,
        Key::ErrCtrlC => ERR_CTRL_C,
        Key::ErrDirIn => ERR_DIR_IN,
        Key::ErrDirOut => ERR_DIR_OUT,
        Key::ErrInternal => ERR_INTERNAL,
        Key::ErrMdnsAnnounce => ERR_MDNS_ANNOUNCE,
        Key::ErrMdnsBrowse => ERR_MDNS_BROWSE,
        Key::ErrMdnsStart => ERR_MDNS_START,
        Key::ErrNoConfigDir => ERR_NO_CONFIG_DIR,
        Key::ErrNoDefault => ERR_NO_DEFAULT,
        Key::ErrNoDeviceIdx => ERR_NO_DEVICE_IDX,
        Key::ErrNoFormat => ERR_NO_FORMAT,
        Key::ErrNobodyTypedCode => ERR_NOBODY_TYPED_CODE,
        Key::ErrPairingCancelled => ERR_PAIRING_CANCELLED,
        Key::ErrPeerAbortedPairing => ERR_PEER_ABORTED_PAIRING,
        Key::FramesN => FRAMES_N,
        Key::HelpBitrate => HELP_BITRATE,
        Key::HelpBufferMs => HELP_BUFFER_MS,
        Key::HelpCode => HELP_CODE,
        Key::HelpDevice => HELP_DEVICE,
        Key::HelpDevices => HELP_DEVICES,
        Key::HelpDiscover => HELP_DISCOVER,
        Key::HelpDoctor => HELP_DOCTOR,
        Key::HelpDropPct => HELP_DROP_PCT,
        Key::HelpFixedBuffer => HELP_FIXED_BUFFER,
        Key::HelpForget => HELP_FORGET,
        Key::HelpForgetPeer => HELP_FORGET_PEER,
        Key::HelpGain => HELP_GAIN,
        Key::HelpListen => HELP_LISTEN,
        Key::HelpNoAnnounce => HELP_NO_ANNOUNCE,
        Key::HelpPeers => HELP_PEERS,
        Key::HelpRecv => HELP_RECV,
        Key::HelpSend => HELP_SEND,
        Key::HelpSink => HELP_SINK,
        Key::HelpTo => HELP_TO,
        Key::HelpVerbose => HELP_VERBOSE,
        Key::HelpWindowMs => HELP_WINDOW_MS,
        Key::LatencyLoss => LATENCY_LOSS,
        Key::NobodyListening => NOBODY_LISTENING,
        Key::NumBitrate => NUM_BITRATE,
        Key::NumCard => NUM_CARD,
        Key::NumCushion => NUM_CUSHION,
        Key::NumDrift => NUM_DRIFT,
        Key::NumDropped => NUM_DROPPED,
        Key::NumFec => NUM_FEC,
        Key::NumFecFor => NUM_FEC_FOR,
        Key::NumFrames => NUM_FRAMES,
        Key::NumJitter => NUM_JITTER,
        Key::NumLost => NUM_LOST,
        Key::NumPeak => NUM_PEAK,
        Key::NumStarved => NUM_STARVED,
        Key::PctLoss => PCT_LOSS,
        Key::Quit => QUIT,
        Key::SamplesN => SAMPLES_N,
        Key::SesCannotAnnounce => SES_CANNOT_ANNOUNCE,
        Key::SesConversion => SES_CONVERSION,
        Key::SesEnded => SES_ENDED,
        Key::SesListening => SES_LISTENING,
        Key::SesPickMicDevice => SES_PICK_MIC_DEVICE,
        Key::SesPickMicNamed => SES_PICK_MIC_NAMED,
        Key::SesSource => SES_SOURCE,
        Key::SesVisibleAs => SES_VISIBLE_AS,
        Key::SesWaitNext => SES_WAIT_NEXT,
        Key::ShowWindow => SHOW_WINDOW,
        Key::VnAddress => VN_ADDRESS,
        Key::VnDevice => VN_DEVICE,
        Key::VnDigits => VN_DIGITS,
        Key::VnName => VN_NAME,
        Key::VnSink => VN_SINK,
    }
}

/// The row of a key.
pub fn row(key: Key) -> (r: [&'static str; 7])
    ensures
        r == row_of(key),
{
    match key {
        Key::CliAbout => CLI_ABOUT,
        Key::CliCtrlC => CLI_CTRL_C,
        Key::CliDefaultMark => CLI_DEFAULT_MARK,
        Key::CliForgetHint => CLI_FORGET_HINT,
        Key::CliForgetOther => CLI_FORGET_OTHER,
        Key::CliForgotten => CLI_FORGOTTEN,
        Key::CliHintMulticast => CLI_HINT_MULTICAST,
        Key::CliHintRecv => CLI_HINT_RECV,
        Key::CliHintSameNet => CLI_HINT_SAME_NET,
        Key::CliHintUseTo => CLI_HINT_USE_TO,
        Key::CliInputs => CLI_INPUTS,
        Key::CliKeysAt => CLI_KEYS_AT,
        Key::CliNoMic => CLI_NO_MIC,
        Key::CliNone => CLI_NONE,
        Key::CliNothingPaired => CLI_NOTHING_PAIRED,
        Key::CliNothingSeen => CLI_NOTHING_SEEN,
        Key::CliNothingUnder => CLI_NOTHING_UNDER,
        Key::CliOutputs => CLI_OUTPUTS,
        Key::CliPairedHeading => CLI_PAIRED_HEADING,
        Key::CliPairingIsAutomatic => CLI_PAIRING_IS_AUTOMATIC,
        Key::CliPointing => CLI_POINTING,
        Key::CliProtocolInstead => CLI_PROTOCOL_INSTEAD,
        Key::CliReceivers => CLI_RECEIVERS,
        Key::CliSearching => CLI_SEARCHING,
        Key::CliSendWith => CLI_SEND_WITH,
        Key::CliSinkLinux => CLI_SINK_LINUX,
        Key::CliSinkLinuxNote => CLI_SINK_LINUX_NOTE,
        Key::CliSinkWindows => CLI_SINK_WINDOWS,
        Key::CliSinkWindowsNote => CLI_SINK_WINDOWS_NOTE,
        Key::CliVirtualCable => CLI_VIRTUAL_CABLE,
        Key::DevicesFew => DEVICES_FEW,
        Key::DevicesMany => DEVICES_MANY,
        Key::DevicesOne => DEVICES_ONE,
        Key::DocAllGood => DOC_ALL_GOOD,
        Key::DocBroken => DOC_BROKEN,
        Key::DocPartial => DOC_PARTIAL,
        Key::DocTitle => DOC_TITLE,
        Key::ErrCannotBind => ERR_CANNOT_BIND,
        Key::ErrCodeMismatch => ERR_CODE_MISMATCH,
        Key::ErrCtrlC => ERR_CTRL_C,
        Key::ErrDirIn => ERR_DIR_IN,
        Key::ErrDirOut => ERR_DIR_OUT,
        Key::ErrInternal => ERR_INTERNAL,
        Key::ErrMdnsAnnounce => ERR_MDNS_ANNOUNCE,
        Key::ErrMdnsBrowse => ERR_MDNS_BROWSE,
        Key::ErrMdnsStart => ERR_MDNS_START,
        Key::ErrNoConfigDir => ERR_NO_CONFIG_DIR,
        Key::ErrNoDefault => ERR_NO_DEFAULT,
        Key::ErrNoDeviceIdx => ERR_NO_DEVICE_IDX,
        Key::ErrNoFormat => ERR_NO_FORMAT,
        Key::ErrNobodyTypedCode => ERR_NOBODY_TYPED_CODE,
        Key::ErrPairingCancelled => ERR_PAIRING_CANCELLED,
        Key::ErrPeerAbortedPairing => ERR_PEER_ABORTED_PAIRING,
        Key::FramesN => FRAMES_N,
        Key::HelpBitrate => HELP_BITRATE,
        Key::HelpBufferMs => HELP_BUFFER_MS,
        Key::HelpCode => HELP_CODE,
        Key::HelpDevice => HELP_DEVICE,
        Key::HelpDevices => HELP_DEVICES,
        Key::HelpDiscover => HELP_DISCOVER,
        Key::HelpDoctor => HELP_DOCTOR,
        Key::HelpDropPct => HELP_DROP_PCT,
        Key::HelpFixedBuffer => HELP_FIXED_BUFFER,
        Key::HelpForget => HELP_FORGET,
        Key::HelpForgetPeer => HELP_FORGET_PEER,
        Key::HelpGain => HELP_GAIN,
        Key::HelpListen => HELP_LISTEN,
        Key::HelpNoAnnounce => HELP_NO_ANNOUNCE,
        Key::HelpPeers => HELP_PEERS,
        Key::HelpRecv => HELP_RECV,
        Key::HelpSend => HELP_SEND,
        Key::HelpSink => HELP_SINK,
        Key::HelpTo => HELP_TO,
        Key::HelpVerbose => HELP_VERBOSE,
        Key::HelpWindowMs => HELP_WINDOW_MS,
        Key::LatencyLoss => LATENCY_LOSS,
        Key::NobodyListening => NOBODY_LISTENING,
        Key::NumBitrate => NUM_BITRATE,
        Key::NumCard => NUM_CARD,
        Key::NumCushion => NUM_CUSHION,
        Key::NumDrift => NUM_DRIFT,
        Key::NumDropped => NUM_DROPPED,
        Key::NumFec => NUM_FEC,
        Key::NumFecFor => NUM_FEC_FOR,
        Key::NumFrames => NUM_FRAMES,
        Key::NumJitter => NUM_JITTER,
        Key::NumLost => NUM_LOST,
        Key::NumPeak => NUM_PEAK,
        Key::NumStarved => NUM_STARVED,
        Key::PctLoss => PCT_LOSS,
        Key::Quit => QUIT,
        Key::SamplesN => SAMPLES_N,
        Key::SesCannotAnnounce => SES_CANNOT_ANNOUNCE,
        Key::SesConversion => SES_CONVERSION,
        Key::SesEnded => SES_ENDED,
        Key::SesListening => SES_LISTENING,
        Key::SesPickMicDevice => SES_PICK_MIC_DEVICE,
        Key::SesPickMicNamed => SES_PICK_MIC_NAMED,
        Key::SesSource => SES_SOURCE,
        Key::SesVisibleAs => SES_VISIBLE_AS,
        Key::SesWaitNext => SES_WAIT_NEXT,
        Key::ShowWindow => SHOW_WINDOW,
        Key::VnAddress => VN_ADDRESS,
        Key::VnDevice => VN_DEVICE,
        Key::VnDigits => VN_DIGITS,
        Key::VnName => VN_NAME,
        Key::VnSink => VN_SINK,
    }
}

/// The text of a key in a language.
pub open spec fn text_of(key: Key, lang: Lang) -> Seq<char> {
    row_of(key)@[lang.place()]@
}

/// The text of a key in a language.
pub fn text(key: Key, lang: Lang) -> (r: &'static str)
    ensures
        r@ == text_of(key, lang),
{
    row(key)[lang.column()]
}

} // verus!
