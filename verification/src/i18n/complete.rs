//! The catalogue is complete: every key has a text in every language, and the
//! texts of a key have the same number of places to fill.
use vstd::prelude::*;

use crate::i18n::{Key, Lang};

verus! {

/// How many places to fill, written as a pair of braces, stand in a text from a
/// position on.
pub open spec fn holes_from(s: Seq<char>, i: int) -> nat
    decreases s.len() - i,
{
    if i + 1 >= s.len() {
        0
    } else if s[i] == '{' && s[i + 1] == '}' {
        1 + holes_from(s, i + 2)
    } else {
        holes_from(s, i + 1)
    }
}

/// A text says something and has so many places to fill.
pub open spec fn says_with(s: Seq<char>, places: nat) -> bool {
    s.len() > 0 && holes_from(s, 0) == places
}

/// The texts of a key say something and have so many places to fill.
pub open spec fn agree(row: [&'static str; 7], places: nat) -> bool {
    forall|i: int| 0 <= i < 7 ==> says_with(#[trigger] row@[i]@, places)
}

/// A stretch without an opening brace has no place to fill.
proof fn lemma_skip(s: Seq<char>, i: int, j: int)
    requires
        0 <= i <= j <= s.len(),
        forall|k: int| i <= k < j ==> s[k] != '{',
    ensures
        holes_from(s, i) == holes_from(s, j),
    decreases j - i,
{
    if i < j {
        lemma_skip(s, i + 1, j);
    }
}

/// A text without an opening brace has no place to fill.
proof fn lemma_plain(s: Seq<char>)
    requires
        s.len() > 0,
        forall|k: int| 0 <= k < s.len() ==> s[k] != '{',
    ensures
        says_with(s, 0),
{
    lemma_skip(s, 0, s.len() as int);
}

/// A text with one opening brace, at the place to fill.
proof fn lemma_one(s: Seq<char>, p: int)
    requires
        0 <= p,
        p + 1 < s.len(),
        s[p] == '{' && s[p + 1] == '}',
        forall|k: int| 0 <= k < s.len() && k != p ==> s[k] != '{',
    ensures
        says_with(s, 1),
{
    lemma_skip(s, 0, p);
    lemma_skip(s, p + 2, s.len() as int);
}

/// A text with two opening braces, at the places to fill.
proof fn lemma_two(s: Seq<char>, p: int, q: int)
    requires
        0 <= p,
        p + 1 < q,
        q + 1 < s.len(),
        s[p] == '{' && s[p + 1] == '}',
        s[q] == '{' && s[q + 1] == '}',
        forall|k: int| 0 <= k < s.len() && k != p && k != q ==> s[k] != '{',
    ensures
        says_with(s, 2),
{
    lemma_skip(s, 0, p);
    lemma_skip(s, p + 2, q);
    lemma_skip(s, q + 2, s.len() as int);
}

proof fn row_cli_about()
    ensures
        agree(crate::i18n::catalog::CLI_ABOUT, 0),
{
    reveal_strlit("MicBridge — przenosi mikrofon z jednego komputera na drugi");
    lemma_plain("MicBridge — przenosi mikrofon z jednego komputera na drugi"@);
    reveal_strlit("MicBridge — carries a microphone from one computer to another");
    lemma_plain("MicBridge — carries a microphone from one computer to another"@);
    reveal_strlit("MicBridge — bringt ein Mikrofon von einem Computer auf einen anderen");
    lemma_plain("MicBridge — bringt ein Mikrofon von einem Computer auf einen anderen"@);
    reveal_strlit("MicBridge — lleva un micrófono de un ordenador a otro");
    lemma_plain("MicBridge — lleva un micrófono de un ordenador a otro"@);
    reveal_strlit("MicBridge — transporte un micro d'un ordinateur à un autre");
    lemma_plain("MicBridge — transporte un micro d'un ordinateur à un autre"@);
    reveal_strlit("MicBridge — porta un microfono da un computer a un altro");
    lemma_plain("MicBridge — porta un microfono da un computer a un altro"@);
    reveal_strlit("MicBridge — переносить мікрофон з одного комп'ютера на інший");
    lemma_plain("MicBridge — переносить мікрофон з одного комп'ютера на інший"@);
}

proof fn row_cli_ctrl_c()
    ensures
        agree(crate::i18n::catalog::CLI_CTRL_C, 0),
{
    reveal_strlit("Ctrl-C kończy.");
    lemma_plain("Ctrl-C kończy."@);
    reveal_strlit("Ctrl-C stops.");
    lemma_plain("Ctrl-C stops."@);
    reveal_strlit("Strg-C beendet.");
    lemma_plain("Strg-C beendet."@);
    reveal_strlit("Ctrl-C termina.");
    lemma_plain("Ctrl-C termina."@);
    reveal_strlit("Ctrl-C arrête.");
    lemma_plain("Ctrl-C arrête."@);
    reveal_strlit("Ctrl-C termina.");
    lemma_plain("Ctrl-C termina."@);
    reveal_strlit("Ctrl-C завершує.");
    lemma_plain("Ctrl-C завершує."@);
}

proof fn row_cli_default_mark()
    ensures
        agree(crate::i18n::catalog::CLI_DEFAULT_MARK, 1),
{
    reveal_strlit("* oznacza urządzenie domyślne. MicBridge pracuje przy {} Hz; inne częstotliwości przelicza.");
    lemma_one("* oznacza urządzenie domyślne. MicBridge pracuje przy {} Hz; inne częstotliwości przelicza."@, 54);
    reveal_strlit("* marks the default device. MicBridge works at {} Hz; other rates are converted.");
    lemma_one("* marks the default device. MicBridge works at {} Hz; other rates are converted."@, 47);
    reveal_strlit("* markiert das Standardgerät. MicBridge arbeitet mit {} Hz; andere Raten werden umgerechnet.");
    lemma_one("* markiert das Standardgerät. MicBridge arbeitet mit {} Hz; andere Raten werden umgerechnet."@, 53);
    reveal_strlit("* marca el dispositivo predeterminado. MicBridge trabaja a {} Hz; las demás frecuencias se convierten.");
    lemma_one("* marca el dispositivo predeterminado. MicBridge trabaja a {} Hz; las demás frecuencias se convierten."@, 59);
    reveal_strlit("* marque le périphérique par défaut. MicBridge travaille à {} Hz ; les autres fréquences sont converties.");
    lemma_one("* marque le périphérique par défaut. MicBridge travaille à {} Hz ; les autres fréquences sont converties."@, 59);
    reveal_strlit("* indica il dispositivo predefinito. MicBridge lavora a {} Hz; le altre frequenze vengono convertite.");
    lemma_one("* indica il dispositivo predefinito. MicBridge lavora a {} Hz; le altre frequenze vengono convertite."@, 56);
    reveal_strlit("* позначає типовий пристрій. MicBridge працює на {} Гц; інші частоти перераховуються.");
    lemma_one("* позначає типовий пристрій. MicBridge працює на {} Гц; інші частоти перераховуються."@, 49);
}

proof fn row_cli_forget_hint()
    ensures
        agree(crate::i18n::catalog::CLI_FORGET_HINT, 0),
{
    reveal_strlit("Zapomnij parowanie: micbridge forget <nazwa>");
    lemma_plain("Zapomnij parowanie: micbridge forget <nazwa>"@);
    reveal_strlit("Forget a pairing: micbridge forget <name>");
    lemma_plain("Forget a pairing: micbridge forget <name>"@);
    reveal_strlit("Kopplung vergessen: micbridge forget <Name>");
    lemma_plain("Kopplung vergessen: micbridge forget <Name>"@);
    reveal_strlit("Olvidar un emparejamiento: micbridge forget <nombre>");
    lemma_plain("Olvidar un emparejamiento: micbridge forget <nombre>"@);
    reveal_strlit("Oublier un appairage : micbridge forget <nom>");
    lemma_plain("Oublier un appairage : micbridge forget <nom>"@);
    reveal_strlit("Dimentica un abbinamento: micbridge forget <nome>");
    lemma_plain("Dimentica un abbinamento: micbridge forget <nome>"@);
    reveal_strlit("Забути парування: micbridge forget <назва>");
    lemma_plain("Забути парування: micbridge forget <назва>"@);
}

proof fn row_cli_forget_other()
    ensures
        agree(crate::i18n::catalog::CLI_FORGET_OTHER, 0),
{
    reveal_strlit("Zrób to samo na drugiej maszynie.");
    lemma_plain("Zrób to samo na drugiej maszynie."@);
    reveal_strlit("Do the same on the other machine.");
    lemma_plain("Do the same on the other machine."@);
    reveal_strlit("Mach dasselbe auf dem anderen Computer.");
    lemma_plain("Mach dasselbe auf dem anderen Computer."@);
    reveal_strlit("Haz lo mismo en la otra máquina.");
    lemma_plain("Haz lo mismo en la otra máquina."@);
    reveal_strlit("Faites de même sur l'autre machine.");
    lemma_plain("Faites de même sur l'autre machine."@);
    reveal_strlit("Fai lo stesso sull'altra macchina.");
    lemma_plain("Fai lo stesso sull'altra macchina."@);
    reveal_strlit("Зробіть те саме на іншій машині.");
    lemma_plain("Зробіть те саме на іншій машині."@);
}

proof fn row_cli_forgotten()
    ensures
        agree(crate::i18n::catalog::CLI_FORGOTTEN, 1),
{
    reveal_strlit("Zapomniano „{}”.");
    lemma_one("Zapomniano „{}”."@, 12);
    reveal_strlit("Forgot “{}”.");
    lemma_one("Forgot “{}”."@, 8);
    reveal_strlit("„{}“ vergessen.");
    lemma_one("„{}“ vergessen."@, 1);
    reveal_strlit("Olvidado «{}».");
    lemma_one("Olvidado «{}»."@, 10);
    reveal_strlit("« {} » oublié.");
    lemma_one("« {} » oublié."@, 2);
    reveal_strlit("Dimenticato «{}».");
    lemma_one("Dimenticato «{}»."@, 13);
    reveal_strlit("Забуто «{}».");
    lemma_one("Забуто «{}»."@, 8);
}

proof fn row_cli_hint_multicast()
    ensures
        agree(crate::i18n::catalog::CLI_HINT_MULTICAST, 0),
{
    reveal_strlit("  • router może blokować ruch multicast między klientami");
    lemma_plain("  • router może blokować ruch multicast między klientami"@);
    reveal_strlit("  • the router may block multicast between clients");
    lemma_plain("  • the router may block multicast between clients"@);
    reveal_strlit("  • der Router blockiert vielleicht Multicast zwischen Geräten");
    lemma_plain("  • der Router blockiert vielleicht Multicast zwischen Geräten"@);
    reveal_strlit("  • el router puede bloquear el multicast entre clientes");
    lemma_plain("  • el router puede bloquear el multicast entre clientes"@);
    reveal_strlit("  • le routeur bloque peut-être le multicast entre clients");
    lemma_plain("  • le routeur bloque peut-être le multicast entre clients"@);
    reveal_strlit("  • il router potrebbe bloccare il multicast tra i client");
    lemma_plain("  • il router potrebbe bloccare il multicast tra i client"@);
    reveal_strlit("  • роутер може блокувати multicast між клієнтами");
    lemma_plain("  • роутер може блокувати multicast між клієнтами"@);
}

proof fn row_cli_hint_recv()
    ensures
        agree(crate::i18n::catalog::CLI_HINT_RECV, 0),
{
    reveal_strlit("  • uruchom `micbridge recv` na drugiej maszynie");
    lemma_plain("  • uruchom `micbridge recv` na drugiej maszynie"@);
    reveal_strlit("  • run `micbridge recv` on the other machine");
    lemma_plain("  • run `micbridge recv` on the other machine"@);
    reveal_strlit("  • starte `micbridge recv` auf dem anderen Computer");
    lemma_plain("  • starte `micbridge recv` auf dem anderen Computer"@);
    reveal_strlit("  • ejecuta `micbridge recv` en la otra máquina");
    lemma_plain("  • ejecuta `micbridge recv` en la otra máquina"@);
    reveal_strlit("  • lancez `micbridge recv` sur l'autre machine");
    lemma_plain("  • lancez `micbridge recv` sur l'autre machine"@);
    reveal_strlit("  • avvia `micbridge recv` sull'altra macchina");
    lemma_plain("  • avvia `micbridge recv` sull'altra macchina"@);
    reveal_strlit("  • запустіть `micbridge recv` на іншій машині");
    lemma_plain("  • запустіть `micbridge recv` на іншій машині"@);
}

proof fn row_cli_hint_same_net()
    ensures
        agree(crate::i18n::catalog::CLI_HINT_SAME_NET, 0),
{
    reveal_strlit("  • obie maszyny muszą być w tej samej sieci");
    lemma_plain("  • obie maszyny muszą być w tej samej sieci"@);
    reveal_strlit("  • both machines must be on the same network");
    lemma_plain("  • both machines must be on the same network"@);
    reveal_strlit("  • beide Computer müssen im selben Netz sein");
    lemma_plain("  • beide Computer müssen im selben Netz sein"@);
    reveal_strlit("  • ambas máquinas deben estar en la misma red");
    lemma_plain("  • ambas máquinas deben estar en la misma red"@);
    reveal_strlit("  • les deux machines doivent être sur le même réseau");
    lemma_plain("  • les deux machines doivent être sur le même réseau"@);
    reveal_strlit("  • entrambe le macchine devono essere nella stessa rete");
    lemma_plain("  • entrambe le macchine devono essere nella stessa rete"@);
    reveal_strlit("  • обидві машини мають бути в одній мережі");
    lemma_plain("  • обидві машини мають бути в одній мережі"@);
}

proof fn row_cli_hint_use_to()
    ensures
        agree(crate::i18n::catalog::CLI_HINT_USE_TO, 0),
{
    reveal_strlit("  • adres można podać wprost: --to 192.168.1.40");
    lemma_plain("  • adres można podać wprost: --to 192.168.1.40"@);
    reveal_strlit("  • an address can be given directly: --to 192.168.1.40");
    lemma_plain("  • an address can be given directly: --to 192.168.1.40"@);
    reveal_strlit("  • die Adresse geht auch direkt: --to 192.168.1.40");
    lemma_plain("  • die Adresse geht auch direkt: --to 192.168.1.40"@);
    reveal_strlit("  • se puede dar la dirección: --to 192.168.1.40");
    lemma_plain("  • se puede dar la dirección: --to 192.168.1.40"@);
    reveal_strlit("  • on peut donner l'adresse : --to 192.168.1.40");
    lemma_plain("  • on peut donner l'adresse : --to 192.168.1.40"@);
    reveal_strlit("  • si può indicare l'indirizzo: --to 192.168.1.40");
    lemma_plain("  • si può indicare l'indirizzo: --to 192.168.1.40"@);
    reveal_strlit("  • адресу можна вказати прямо: --to 192.168.1.40");
    lemma_plain("  • адресу можна вказати прямо: --to 192.168.1.40"@);
}

proof fn row_cli_inputs()
    ensures
        agree(crate::i18n::catalog::CLI_INPUTS, 0),
{
    reveal_strlit("Wejścia (mikrofony):");
    lemma_plain("Wejścia (mikrofony):"@);
    reveal_strlit("Inputs (microphones):");
    lemma_plain("Inputs (microphones):"@);
    reveal_strlit("Eingänge (Mikrofone):");
    lemma_plain("Eingänge (Mikrofone):"@);
    reveal_strlit("Entradas (micrófonos):");
    lemma_plain("Entradas (micrófonos):"@);
    reveal_strlit("Entrées (micros) :");
    lemma_plain("Entrées (micros) :"@);
    reveal_strlit("Ingressi (microfoni):");
    lemma_plain("Ingressi (microfoni):"@);
    reveal_strlit("Входи (мікрофони):");
    lemma_plain("Входи (мікрофони):"@);
}

proof fn row_cli_keys_at()
    ensures
        agree(crate::i18n::catalog::CLI_KEYS_AT, 1),
{
    reveal_strlit("Klucze leżą w {}");
    lemma_one("Klucze leżą w {}"@, 14);
    reveal_strlit("The keys are in {}");
    lemma_one("The keys are in {}"@, 16);
    reveal_strlit("Die Schlüssel liegen in {}");
    lemma_one("Die Schlüssel liegen in {}"@, 24);
    reveal_strlit("Las claves están en {}");
    lemma_one("Las claves están en {}"@, 20);
    reveal_strlit("Les clés sont dans {}");
    lemma_one("Les clés sont dans {}"@, 19);
    reveal_strlit("Le chiavi sono in {}");
    lemma_one("Le chiavi sono in {}"@, 18);
    reveal_strlit("Ключі лежать у {}");
    lemma_one("Ключі лежать у {}"@, 15);
}

proof fn row_cli_no_mic()
    ensures
        agree(crate::i18n::catalog::CLI_NO_MIC, 1),
{
    reveal_strlit("Bez mikrofonu: --device {}");
    lemma_one("Bez mikrofonu: --device {}"@, 24);
    reveal_strlit("Without a microphone: --device {}");
    lemma_one("Without a microphone: --device {}"@, 31);
    reveal_strlit("Ohne Mikrofon: --device {}");
    lemma_one("Ohne Mikrofon: --device {}"@, 24);
    reveal_strlit("Sin micrófono: --device {}");
    lemma_one("Sin micrófono: --device {}"@, 24);
    reveal_strlit("Sans micro : --device {}");
    lemma_one("Sans micro : --device {}"@, 22);
    reveal_strlit("Senza microfono: --device {}");
    lemma_one("Senza microfono: --device {}"@, 26);
    reveal_strlit("Без мікрофона: --device {}");
    lemma_one("Без мікрофона: --device {}"@, 24);
}

proof fn row_cli_none()
    ensures
        agree(crate::i18n::catalog::CLI_NONE, 0),
{
    reveal_strlit("  (brak)");
    lemma_plain("  (brak)"@);
    reveal_strlit("  (none)");
    lemma_plain("  (none)"@);
    reveal_strlit("  (keine)");
    lemma_plain("  (keine)"@);
    reveal_strlit("  (ninguno)");
    lemma_plain("  (ninguno)"@);
    reveal_strlit("  (aucun)");
    lemma_plain("  (aucun)"@);
    reveal_strlit("  (nessuno)");
    lemma_plain("  (nessuno)"@);
    reveal_strlit("  (немає)");
    lemma_plain("  (немає)"@);
}

proof fn row_cli_nothing_paired()
    ensures
        agree(crate::i18n::catalog::CLI_NOTHING_PAIRED, 0),
{
    reveal_strlit("Nic jeszcze nie sparowano.");
    lemma_plain("Nic jeszcze nie sparowano."@);
    reveal_strlit("Nothing is paired yet.");
    lemma_plain("Nothing is paired yet."@);
    reveal_strlit("Noch nichts gekoppelt.");
    lemma_plain("Noch nichts gekoppelt."@);
    reveal_strlit("Aún no hay nada emparejado.");
    lemma_plain("Aún no hay nada emparejado."@);
    reveal_strlit("Rien n'est encore appairé.");
    lemma_plain("Rien n'est encore appairé."@);
    reveal_strlit("Ancora nessun abbinamento.");
    lemma_plain("Ancora nessun abbinamento."@);
    reveal_strlit("Ще нічого не спаровано.");
    lemma_plain("Ще нічого не спаровано."@);
}

proof fn row_cli_nothing_seen()
    ensures
        agree(crate::i18n::catalog::CLI_NOTHING_SEEN, 0),
{
    reveal_strlit("Nie widzę żadnego odbiornika.");
    lemma_plain("Nie widzę żadnego odbiornika."@);
    reveal_strlit("I see no receiver.");
    lemma_plain("I see no receiver."@);
    reveal_strlit("Ich sehe keinen Empfänger.");
    lemma_plain("Ich sehe keinen Empfänger."@);
    reveal_strlit("No veo ningún receptor.");
    lemma_plain("No veo ningún receptor."@);
    reveal_strlit("Je ne vois aucun récepteur.");
    lemma_plain("Je ne vois aucun récepteur."@);
    reveal_strlit("Non vedo alcun ricevitore.");
    lemma_plain("Non vedo alcun ricevitore."@);
    reveal_strlit("Не бачу жодного приймача.");
    lemma_plain("Не бачу жодного приймача."@);
}

proof fn row_cli_nothing_under()
    ensures
        agree(crate::i18n::catalog::CLI_NOTHING_UNDER, 1),
{
    reveal_strlit("Nic nie zapisano pod „{}”.");
    lemma_one("Nic nie zapisano pod „{}”."@, 22);
    reveal_strlit("Nothing is stored under “{}”.");
    lemma_one("Nothing is stored under “{}”."@, 25);
    reveal_strlit("Unter „{}“ ist nichts gespeichert.");
    lemma_one("Unter „{}“ ist nichts gespeichert."@, 7);
    reveal_strlit("No hay nada guardado con «{}».");
    lemma_one("No hay nada guardado con «{}»."@, 26);
    reveal_strlit("Rien n'est enregistré sous « {} ».");
    lemma_one("Rien n'est enregistré sous « {} »."@, 29);
    reveal_strlit("Non c'è nulla sotto «{}».");
    lemma_one("Non c'è nulla sotto «{}»."@, 21);
    reveal_strlit("Під «{}» нічого не збережено.");
    lemma_one("Під «{}» нічого не збережено."@, 5);
}

proof fn row_cli_outputs()
    ensures
        agree(crate::i18n::catalog::CLI_OUTPUTS, 0),
{
    reveal_strlit("Wyjścia (głośniki):");
    lemma_plain("Wyjścia (głośniki):"@);
    reveal_strlit("Outputs (speakers):");
    lemma_plain("Outputs (speakers):"@);
    reveal_strlit("Ausgänge (Lautsprecher):");
    lemma_plain("Ausgänge (Lautsprecher):"@);
    reveal_strlit("Salidas (altavoces):");
    lemma_plain("Salidas (altavoces):"@);
    reveal_strlit("Sorties (haut-parleurs) :");
    lemma_plain("Sorties (haut-parleurs) :"@);
    reveal_strlit("Uscite (altoparlanti):");
    lemma_plain("Uscite (altoparlanti):"@);
    reveal_strlit("Виходи (динаміки):");
    lemma_plain("Виходи (динаміки):"@);
}

proof fn row_cli_paired_heading()
    ensures
        agree(crate::i18n::catalog::CLI_PAIRED_HEADING, 0),
{
    reveal_strlit("Sparowane maszyny:");
    lemma_plain("Sparowane maszyny:"@);
    reveal_strlit("Paired machines:");
    lemma_plain("Paired machines:"@);
    reveal_strlit("Gekoppelte Computer:");
    lemma_plain("Gekoppelte Computer:"@);
    reveal_strlit("Máquinas emparejadas:");
    lemma_plain("Máquinas emparejadas:"@);
    reveal_strlit("Machines appairées :");
    lemma_plain("Machines appairées :"@);
    reveal_strlit("Macchine abbinate:");
    lemma_plain("Macchine abbinate:"@);
    reveal_strlit("Спаровані машини:");
    lemma_plain("Спаровані машини:"@);
}

proof fn row_cli_pairing_is_automatic()
    ensures
        agree(crate::i18n::catalog::CLI_PAIRING_IS_AUTOMATIC, 0),
{
    reveal_strlit("Parowanie zacznie się samo przy pierwszym połączeniu.");
    lemma_plain("Parowanie zacznie się samo przy pierwszym połączeniu."@);
    reveal_strlit("Pairing starts by itself with the first connection.");
    lemma_plain("Pairing starts by itself with the first connection."@);
    reveal_strlit("Die Kopplung beginnt von selbst bei der ersten Verbindung.");
    lemma_plain("Die Kopplung beginnt von selbst bei der ersten Verbindung."@);
    reveal_strlit("El emparejamiento empieza solo con la primera conexión.");
    lemma_plain("El emparejamiento empieza solo con la primera conexión."@);
    reveal_strlit("L'appairage commence seul à la première connexion.");
    lemma_plain("L'appairage commence seul à la première connexion."@);
    reveal_strlit("L'abbinamento parte da solo alla prima connessione.");
    lemma_plain("L'abbinamento parte da solo alla prima connessione."@);
    reveal_strlit("Парування почнеться саме під час першого з'єднання.");
    lemma_plain("Парування почнеться саме під час першого з'єднання."@);
}

proof fn row_cli_pointing()
    ensures
        agree(crate::i18n::catalog::CLI_POINTING, 0),
{
    reveal_strlit("Wskazywanie: --device @3 albo fragment nazwy, np. --device yeti");
    lemma_plain("Wskazywanie: --device @3 albo fragment nazwy, np. --device yeti"@);
    reveal_strlit("Pointing: --device @3 or part of a name, e.g. --device yeti");
    lemma_plain("Pointing: --device @3 or part of a name, e.g. --device yeti"@);
    reveal_strlit("Auswahl: --device @3 oder ein Teil des Namens, z. B. --device yeti");
    lemma_plain("Auswahl: --device @3 oder ein Teil des Namens, z. B. --device yeti"@);
    reveal_strlit("Selección: --device @3 o parte del nombre, p. ej. --device yeti");
    lemma_plain("Selección: --device @3 o parte del nombre, p. ej. --device yeti"@);
    reveal_strlit("Choix : --device @3 ou une partie du nom, p. ex. --device yeti");
    lemma_plain("Choix : --device @3 ou une partie du nom, p. ex. --device yeti"@);
    reveal_strlit("Scelta: --device @3 o parte del nome, p. es. --device yeti");
    lemma_plain("Scelta: --device @3 o parte del nome, p. es. --device yeti"@);
    reveal_strlit("Вибір: --device @3 або частина назви, напр. --device yeti");
    lemma_plain("Вибір: --device @3 або частина назви, напр. --device yeti"@);
}

proof fn row_cli_protocol_instead()
    ensures
        agree(crate::i18n::catalog::CLI_PROTOCOL_INSTEAD, 2),
{
    reveal_strlit("protokół {}, potrzebny {}");
    lemma_two("protokół {}, potrzebny {}"@, 9, 23);
    reveal_strlit("protocol {}, needed {}");
    lemma_two("protocol {}, needed {}"@, 9, 20);
    reveal_strlit("Protokoll {}, nötig {}");
    lemma_two("Protokoll {}, nötig {}"@, 10, 20);
    reveal_strlit("protocolo {}, se necesita {}");
    lemma_two("protocolo {}, se necesita {}"@, 10, 26);
    reveal_strlit("protocole {}, il faut {}");
    lemma_two("protocole {}, il faut {}"@, 10, 22);
    reveal_strlit("protocollo {}, serve {}");
    lemma_two("protocollo {}, serve {}"@, 11, 21);
    reveal_strlit("протокол {}, потрібен {}");
    lemma_two("протокол {}, потрібен {}"@, 9, 22);
}

proof fn row_cli_receivers()
    ensures
        agree(crate::i18n::catalog::CLI_RECEIVERS, 0),
{
    reveal_strlit("Odbiorniki w sieci:");
    lemma_plain("Odbiorniki w sieci:"@);
    reveal_strlit("Receivers on the network:");
    lemma_plain("Receivers on the network:"@);
    reveal_strlit("Empfänger im Netz:");
    lemma_plain("Empfänger im Netz:"@);
    reveal_strlit("Receptores en la red:");
    lemma_plain("Receptores en la red:"@);
    reveal_strlit("Récepteurs sur le réseau :");
    lemma_plain("Récepteurs sur le réseau :"@);
    reveal_strlit("Ricevitori nella rete:");
    lemma_plain("Ricevitori nella rete:"@);
    reveal_strlit("Приймачі в мережі:");
    lemma_plain("Приймачі в мережі:"@);
}

proof fn row_cli_searching()
    ensures
        agree(crate::i18n::catalog::CLI_SEARCHING, 1),
{
    reveal_strlit("Szukam odbiorników przez {} ms…");
    lemma_one("Szukam odbiorników przez {} ms…"@, 25);
    reveal_strlit("Looking for receivers for {} ms…");
    lemma_one("Looking for receivers for {} ms…"@, 26);
    reveal_strlit("Suche {} ms lang nach Empfängern…");
    lemma_one("Suche {} ms lang nach Empfängern…"@, 6);
    reveal_strlit("Buscando receptores durante {} ms…");
    lemma_one("Buscando receptores durante {} ms…"@, 28);
    reveal_strlit("Recherche de récepteurs pendant {} ms…");
    lemma_one("Recherche de récepteurs pendant {} ms…"@, 32);
    reveal_strlit("Cerco ricevitori per {} ms…");
    lemma_one("Cerco ricevitori per {} ms…"@, 21);
    reveal_strlit("Шукаю приймачі {} мс…");
    lemma_one("Шукаю приймачі {} мс…"@, 15);
}

proof fn row_cli_send_with()
    ensures
        agree(crate::i18n::catalog::CLI_SEND_WITH, 1),
{
    reveal_strlit("Wyślij mikrofon: micbridge send --to \"{}\"");
    lemma_one("Wyślij mikrofon: micbridge send --to \"{}\""@, 38);
    reveal_strlit("Send the microphone: micbridge send --to \"{}\"");
    lemma_one("Send the microphone: micbridge send --to \"{}\""@, 42);
    reveal_strlit("Mikrofon senden: micbridge send --to \"{}\"");
    lemma_one("Mikrofon senden: micbridge send --to \"{}\""@, 38);
    reveal_strlit("Enviar el micrófono: micbridge send --to \"{}\"");
    lemma_one("Enviar el micrófono: micbridge send --to \"{}\""@, 42);
    reveal_strlit("Envoyer le micro : micbridge send --to \"{}\"");
    lemma_one("Envoyer le micro : micbridge send --to \"{}\""@, 40);
    reveal_strlit("Invia il microfono: micbridge send --to \"{}\"");
    lemma_one("Invia il microfono: micbridge send --to \"{}\""@, 41);
    reveal_strlit("Надіслати мікрофон: micbridge send --to \"{}\"");
    lemma_one("Надіслати мікрофон: micbridge send --to \"{}\""@, 41);
}

proof fn row_cli_sink_linux()
    ensures
        agree(crate::i18n::catalog::CLI_SINK_LINUX, 1),
{
    reveal_strlit("Ujście w Linuksie: własny mikrofon „{}”.");
    lemma_one("Ujście w Linuksie: własny mikrofon „{}”."@, 36);
    reveal_strlit("Sink on Linux: a microphone of its own, “{}”.");
    lemma_one("Sink on Linux: a microphone of its own, “{}”."@, 41);
    reveal_strlit("Ziel unter Linux: ein eigenes Mikrofon, „{}“.");
    lemma_one("Ziel unter Linux: ein eigenes Mikrofon, „{}“."@, 41);
    reveal_strlit("Destino en Linux: un micrófono propio, «{}».");
    lemma_one("Destino en Linux: un micrófono propio, «{}»."@, 40);
    reveal_strlit("Sortie sous Linux : un micro à part, « {} ».");
    lemma_one("Sortie sous Linux : un micro à part, « {} »."@, 39);
    reveal_strlit("Uscita su Linux: un microfono proprio, «{}».");
    lemma_one("Uscita su Linux: un microfono proprio, «{}»."@, 40);
    reveal_strlit("Вихід у Linux: власний мікрофон «{}».");
    lemma_one("Вихід у Linux: власний мікрофон «{}»."@, 33);
}

proof fn row_cli_sink_linux_note()
    ensures
        agree(crate::i18n::catalog::CLI_SINK_LINUX_NOTE, 0),
{
    reveal_strlit("Pojawia się, gdy odbiornik ma sesję.");
    lemma_plain("Pojawia się, gdy odbiornik ma sesję."@);
    reveal_strlit("It appears while the receiver has a session.");
    lemma_plain("It appears while the receiver has a session."@);
    reveal_strlit("Es erscheint, solange der Empfänger eine Sitzung hat.");
    lemma_plain("Es erscheint, solange der Empfänger eine Sitzung hat."@);
    reveal_strlit("Aparece mientras el receptor tiene una sesión.");
    lemma_plain("Aparece mientras el receptor tiene una sesión."@);
    reveal_strlit("Il apparaît tant que le récepteur a une session.");
    lemma_plain("Il apparaît tant que le récepteur a une session."@);
    reveal_strlit("Compare finché il ricevitore ha una sessione.");
    lemma_plain("Compare finché il ricevitore ha una sessione."@);
    reveal_strlit("З'являється, поки приймач має сеанс.");
    lemma_plain("З'являється, поки приймач має сеанс."@);
}

proof fn row_cli_sink_windows()
    ensures
        agree(crate::i18n::catalog::CLI_SINK_WINDOWS, 0),
{
    reveal_strlit("Ujście w Windows: wirtualny kabel (np. VB-CABLE).");
    lemma_plain("Ujście w Windows: wirtualny kabel (np. VB-CABLE)."@);
    reveal_strlit("Sink on Windows: a virtual cable (e.g. VB-CABLE).");
    lemma_plain("Sink on Windows: a virtual cable (e.g. VB-CABLE)."@);
    reveal_strlit("Ziel unter Windows: ein virtuelles Kabel (z. B. VB-CABLE).");
    lemma_plain("Ziel unter Windows: ein virtuelles Kabel (z. B. VB-CABLE)."@);
    reveal_strlit("Destino en Windows: un cable virtual (p. ej. VB-CABLE).");
    lemma_plain("Destino en Windows: un cable virtual (p. ej. VB-CABLE)."@);
    reveal_strlit("Sortie sous Windows : un câble virtuel (p. ex. VB-CABLE).");
    lemma_plain("Sortie sous Windows : un câble virtuel (p. ex. VB-CABLE)."@);
    reveal_strlit("Uscita su Windows: un cavo virtuale (p. es. VB-CABLE).");
    lemma_plain("Uscita su Windows: un cavo virtuale (p. es. VB-CABLE)."@);
    reveal_strlit("Вихід у Windows: віртуальний кабель (напр. VB-CABLE).");
    lemma_plain("Вихід у Windows: віртуальний кабель (напр. VB-CABLE)."@);
}

proof fn row_cli_sink_windows_note()
    ensures
        agree(crate::i18n::catalog::CLI_SINK_WINDOWS_NOTE, 0),
{
    reveal_strlit("W aplikacji wybierz drugi koniec kabla jako mikrofon.");
    lemma_plain("W aplikacji wybierz drugi koniec kabla jako mikrofon."@);
    reveal_strlit("In the application pick the other end of the cable as the microphone.");
    lemma_plain("In the application pick the other end of the cable as the microphone."@);
    reveal_strlit("Wähle in der Anwendung das andere Kabelende als Mikrofon.");
    lemma_plain("Wähle in der Anwendung das andere Kabelende als Mikrofon."@);
    reveal_strlit("En la aplicación elige el otro extremo del cable como micrófono.");
    lemma_plain("En la aplicación elige el otro extremo del cable como micrófono."@);
    reveal_strlit("Dans l'application, choisissez l'autre bout du câble comme micro.");
    lemma_plain("Dans l'application, choisissez l'autre bout du câble comme micro."@);
    reveal_strlit("Nell'applicazione scegli l'altro capo del cavo come microfono.");
    lemma_plain("Nell'applicazione scegli l'altro capo del cavo come microfono."@);
    reveal_strlit("У програмі виберіть інший кінець кабелю як мікрофон.");
    lemma_plain("У програмі виберіть інший кінець кабелю як мікрофон."@);
}

proof fn row_cli_virtual_cable()
    ensures
        agree(crate::i18n::catalog::CLI_VIRTUAL_CABLE, 0),
{
    reveal_strlit("  ← wirtualny kabel");
    lemma_plain("  ← wirtualny kabel"@);
    reveal_strlit("  ← virtual cable");
    lemma_plain("  ← virtual cable"@);
    reveal_strlit("  ← virtuelles Kabel");
    lemma_plain("  ← virtuelles Kabel"@);
    reveal_strlit("  ← cable virtual");
    lemma_plain("  ← cable virtual"@);
    reveal_strlit("  ← câble virtuel");
    lemma_plain("  ← câble virtuel"@);
    reveal_strlit("  ← cavo virtuale");
    lemma_plain("  ← cavo virtuale"@);
    reveal_strlit("  ← віртуальний кабель");
    lemma_plain("  ← віртуальний кабель"@);
}

proof fn row_devices_few()
    ensures
        agree(crate::i18n::catalog::DEVICES_FEW, 0),
{
    reveal_strlit("urządzenia");
    lemma_plain("urządzenia"@);
    reveal_strlit("devices");
    lemma_plain("devices"@);
    reveal_strlit("Geräte");
    lemma_plain("Geräte"@);
    reveal_strlit("dispositivos");
    lemma_plain("dispositivos"@);
    reveal_strlit("périphériques");
    lemma_plain("périphériques"@);
    reveal_strlit("dispositivi");
    lemma_plain("dispositivi"@);
    reveal_strlit("пристрої");
    lemma_plain("пристрої"@);
}

proof fn row_devices_many()
    ensures
        agree(crate::i18n::catalog::DEVICES_MANY, 0),
{
    reveal_strlit("urządzeń");
    lemma_plain("urządzeń"@);
    reveal_strlit("devices");
    lemma_plain("devices"@);
    reveal_strlit("Geräte");
    lemma_plain("Geräte"@);
    reveal_strlit("dispositivos");
    lemma_plain("dispositivos"@);
    reveal_strlit("périphériques");
    lemma_plain("périphériques"@);
    reveal_strlit("dispositivi");
    lemma_plain("dispositivi"@);
    reveal_strlit("пристроїв");
    lemma_plain("пристроїв"@);
}

proof fn row_devices_one()
    ensures
        agree(crate::i18n::catalog::DEVICES_ONE, 0),
{
    reveal_strlit("urządzenie");
    lemma_plain("urządzenie"@);
    reveal_strlit("device");
    lemma_plain("device"@);
    reveal_strlit("Gerät");
    lemma_plain("Gerät"@);
    reveal_strlit("dispositivo");
    lemma_plain("dispositivo"@);
    reveal_strlit("périphérique");
    lemma_plain("périphérique"@);
    reveal_strlit("dispositivo");
    lemma_plain("dispositivo"@);
    reveal_strlit("пристрій");
    lemma_plain("пристрій"@);
}

proof fn row_doc_all_good()
    ensures
        agree(crate::i18n::catalog::DOC_ALL_GOOD, 0),
{
    reveal_strlit("Wszystko gotowe.");
    lemma_plain("Wszystko gotowe."@);
    reveal_strlit("Everything is ready.");
    lemma_plain("Everything is ready."@);
    reveal_strlit("Alles bereit.");
    lemma_plain("Alles bereit."@);
    reveal_strlit("Todo listo.");
    lemma_plain("Todo listo."@);
    reveal_strlit("Tout est prêt.");
    lemma_plain("Tout est prêt."@);
    reveal_strlit("Tutto pronto.");
    lemma_plain("Tutto pronto."@);
    reveal_strlit("Усе готово.");
    lemma_plain("Усе готово."@);
}

proof fn row_doc_broken()
    ensures
        agree(crate::i18n::catalog::DOC_BROKEN, 0),
{
    reveal_strlit("Tak nie zadziała: popraw to, co oznaczono jako błąd.");
    lemma_plain("Tak nie zadziała: popraw to, co oznaczono jako błąd."@);
    reveal_strlit("It will not work like this: fix what is marked as failed.");
    lemma_plain("It will not work like this: fix what is marked as failed."@);
    reveal_strlit("So geht es nicht: behebe, was als Fehler markiert ist.");
    lemma_plain("So geht es nicht: behebe, was als Fehler markiert ist."@);
    reveal_strlit("Así no funcionará: corrige lo marcado como fallo.");
    lemma_plain("Así no funcionará: corrige lo marcado como fallo."@);
    reveal_strlit("Cela ne marchera pas ainsi : corrigez ce qui est en échec.");
    lemma_plain("Cela ne marchera pas ainsi : corrigez ce qui est en échec."@);
    reveal_strlit("Così non funziona: correggi ciò che è segnato come errore.");
    lemma_plain("Così non funziona: correggi ciò che è segnato come errore."@);
    reveal_strlit("Так не запрацює: виправте позначене як помилку.");
    lemma_plain("Так не запрацює: виправте позначене як помилку."@);
}

proof fn row_doc_partial()
    ensures
        agree(crate::i18n::catalog::DOC_PARTIAL, 0),
{
    reveal_strlit("Zadziała, ale nie w obie strony albo nie tak dobrze, jak mogłoby.");
    lemma_plain("Zadziała, ale nie w obie strony albo nie tak dobrze, jak mogłoby."@);
    reveal_strlit("It will work, but not both ways or not as well as it could.");
    lemma_plain("It will work, but not both ways or not as well as it could."@);
    reveal_strlit("Es geht, aber nicht in beide Richtungen oder nicht so gut wie möglich.");
    lemma_plain("Es geht, aber nicht in beide Richtungen oder nicht so gut wie möglich."@);
    reveal_strlit("Funcionará, pero no en ambos sentidos o no tan bien como podría.");
    lemma_plain("Funcionará, pero no en ambos sentidos o no tan bien como podría."@);
    reveal_strlit("Cela marchera, mais pas dans les deux sens ou pas aussi bien que possible.");
    lemma_plain("Cela marchera, mais pas dans les deux sens ou pas aussi bien que possible."@);
    reveal_strlit("Funziona, ma non in entrambi i sensi o non al meglio.");
    lemma_plain("Funziona, ma non in entrambi i sensi o non al meglio."@);
    reveal_strlit("Працюватиме, але не в обидва боки або не так добре, як могло б.");
    lemma_plain("Працюватиме, але не в обидва боки або не так добре, як могло б."@);
}

proof fn row_doc_title()
    ensures
        agree(crate::i18n::catalog::DOC_TITLE, 0),
{
    reveal_strlit("Przegląd gotowości");
    lemma_plain("Przegląd gotowości"@);
    reveal_strlit("Readiness check");
    lemma_plain("Readiness check"@);
    reveal_strlit("Bereitschaftsprüfung");
    lemma_plain("Bereitschaftsprüfung"@);
    reveal_strlit("Comprobación");
    lemma_plain("Comprobación"@);
    reveal_strlit("Vérification");
    lemma_plain("Vérification"@);
    reveal_strlit("Verifica");
    lemma_plain("Verifica"@);
    reveal_strlit("Перевірка готовності");
    lemma_plain("Перевірка готовності"@);
}

proof fn row_err_cannot_bind()
    ensures
        agree(crate::i18n::catalog::ERR_CANNOT_BIND, 1),
{
    reveal_strlit("nie mogę nasłuchiwać na {}");
    lemma_one("nie mogę nasłuchiwać na {}"@, 24);
    reveal_strlit("cannot listen on {}");
    lemma_one("cannot listen on {}"@, 17);
    reveal_strlit("kann nicht auf {} lauschen");
    lemma_one("kann nicht auf {} lauschen"@, 15);
    reveal_strlit("no puedo escuchar en {}");
    lemma_one("no puedo escuchar en {}"@, 21);
    reveal_strlit("impossible d'écouter sur {}");
    lemma_one("impossible d'écouter sur {}"@, 25);
    reveal_strlit("impossibile ascoltare su {}");
    lemma_one("impossibile ascoltare su {}"@, 25);
    reveal_strlit("не можу слухати на {}");
    lemma_one("не можу слухати на {}"@, 19);
}

proof fn row_err_code_mismatch()
    ensures
        agree(crate::i18n::catalog::ERR_CODE_MISMATCH, 0),
{
    reveal_strlit("kody się nie zgadzają");
    lemma_plain("kody się nie zgadzają"@);
    reveal_strlit("the codes do not match");
    lemma_plain("the codes do not match"@);
    reveal_strlit("die Codes stimmen nicht überein");
    lemma_plain("die Codes stimmen nicht überein"@);
    reveal_strlit("los códigos no coinciden");
    lemma_plain("los códigos no coinciden"@);
    reveal_strlit("les codes ne correspondent pas");
    lemma_plain("les codes ne correspondent pas"@);
    reveal_strlit("i codici non coincidono");
    lemma_plain("i codici non coincidono"@);
    reveal_strlit("коди не збігаються");
    lemma_plain("коди не збігаються"@);
}

proof fn row_err_ctrl_c()
    ensures
        agree(crate::i18n::catalog::ERR_CTRL_C, 0),
{
    reveal_strlit("nie mogę przechwycić Ctrl-C");
    lemma_plain("nie mogę przechwycić Ctrl-C"@);
    reveal_strlit("cannot catch Ctrl-C");
    lemma_plain("cannot catch Ctrl-C"@);
    reveal_strlit("kann Strg-C nicht abfangen");
    lemma_plain("kann Strg-C nicht abfangen"@);
    reveal_strlit("no puedo capturar Ctrl-C");
    lemma_plain("no puedo capturar Ctrl-C"@);
    reveal_strlit("impossible d'intercepter Ctrl-C");
    lemma_plain("impossible d'intercepter Ctrl-C"@);
    reveal_strlit("impossibile intercettare Ctrl-C");
    lemma_plain("impossibile intercettare Ctrl-C"@);
    reveal_strlit("не можу перехопити Ctrl-C");
    lemma_plain("не можу перехопити Ctrl-C"@);
}

proof fn row_err_dir_in()
    ensures
        agree(crate::i18n::catalog::ERR_DIR_IN, 0),
{
    reveal_strlit("wejściowego");
    lemma_plain("wejściowego"@);
    reveal_strlit("input");
    lemma_plain("input"@);
    reveal_strlit("Eingabe");
    lemma_plain("Eingabe"@);
    reveal_strlit("de entrada");
    lemma_plain("de entrada"@);
    reveal_strlit("d'entrée");
    lemma_plain("d'entrée"@);
    reveal_strlit("di ingresso");
    lemma_plain("di ingresso"@);
    reveal_strlit("вхідного");
    lemma_plain("вхідного"@);
}

proof fn row_err_dir_out()
    ensures
        agree(crate::i18n::catalog::ERR_DIR_OUT, 0),
{
    reveal_strlit("wyjściowego");
    lemma_plain("wyjściowego"@);
    reveal_strlit("output");
    lemma_plain("output"@);
    reveal_strlit("Ausgabe");
    lemma_plain("Ausgabe"@);
    reveal_strlit("de salida");
    lemma_plain("de salida"@);
    reveal_strlit("de sortie");
    lemma_plain("de sortie"@);
    reveal_strlit("di uscita");
    lemma_plain("di uscita"@);
    reveal_strlit("вихідного");
    lemma_plain("вихідного"@);
}

proof fn row_err_internal()
    ensures
        agree(crate::i18n::catalog::ERR_INTERNAL, 0),
{
    reveal_strlit("błąd wewnętrzny");
    lemma_plain("błąd wewnętrzny"@);
    reveal_strlit("internal error");
    lemma_plain("internal error"@);
    reveal_strlit("interner Fehler");
    lemma_plain("interner Fehler"@);
    reveal_strlit("error interno");
    lemma_plain("error interno"@);
    reveal_strlit("erreur interne");
    lemma_plain("erreur interne"@);
    reveal_strlit("errore interno");
    lemma_plain("errore interno"@);
    reveal_strlit("внутрішня помилка");
    lemma_plain("внутрішня помилка"@);
}

proof fn row_err_mdns_announce()
    ensures
        agree(crate::i18n::catalog::ERR_MDNS_ANNOUNCE, 1),
{
    reveal_strlit("nie mogę ogłosić się w sieci: {}");
    lemma_one("nie mogę ogłosić się w sieci: {}"@, 30);
    reveal_strlit("cannot announce on the network: {}");
    lemma_one("cannot announce on the network: {}"@, 32);
    reveal_strlit("kann mich im Netz nicht bekannt machen: {}");
    lemma_one("kann mich im Netz nicht bekannt machen: {}"@, 40);
    reveal_strlit("no puedo anunciarme en la red: {}");
    lemma_one("no puedo anunciarme en la red: {}"@, 31);
    reveal_strlit("impossible de s'annoncer sur le réseau : {}");
    lemma_one("impossible de s'annoncer sur le réseau : {}"@, 41);
    reveal_strlit("impossibile annunciarsi nella rete: {}");
    lemma_one("impossibile annunciarsi nella rete: {}"@, 36);
    reveal_strlit("не можу оголоситися в мережі: {}");
    lemma_one("не можу оголоситися в мережі: {}"@, 30);
}

proof fn row_err_mdns_browse()
    ensures
        agree(crate::i18n::catalog::ERR_MDNS_BROWSE, 1),
{
    reveal_strlit("nie mogę przeszukać sieci: {}");
    lemma_one("nie mogę przeszukać sieci: {}"@, 27);
    reveal_strlit("cannot search the network: {}");
    lemma_one("cannot search the network: {}"@, 27);
    reveal_strlit("kann das Netz nicht durchsuchen: {}");
    lemma_one("kann das Netz nicht durchsuchen: {}"@, 33);
    reveal_strlit("no puedo buscar en la red: {}");
    lemma_one("no puedo buscar en la red: {}"@, 27);
    reveal_strlit("impossible de parcourir le réseau : {}");
    lemma_one("impossible de parcourir le réseau : {}"@, 36);
    reveal_strlit("impossibile cercare nella rete: {}");
    lemma_one("impossibile cercare nella rete: {}"@, 32);
    reveal_strlit("не можу шукати в мережі: {}");
    lemma_one("не можу шукати в мережі: {}"@, 25);
}

proof fn row_err_mdns_start()
    ensures
        agree(crate::i18n::catalog::ERR_MDNS_START, 1),
{
    reveal_strlit("nie mogę uruchomić mDNS: {}");
    lemma_one("nie mogę uruchomić mDNS: {}"@, 25);
    reveal_strlit("cannot start mDNS: {}");
    lemma_one("cannot start mDNS: {}"@, 19);
    reveal_strlit("kann mDNS nicht starten: {}");
    lemma_one("kann mDNS nicht starten: {}"@, 25);
    reveal_strlit("no puedo iniciar mDNS: {}");
    lemma_one("no puedo iniciar mDNS: {}"@, 23);
    reveal_strlit("impossible de démarrer mDNS : {}");
    lemma_one("impossible de démarrer mDNS : {}"@, 30);
    reveal_strlit("impossibile avviare mDNS: {}");
    lemma_one("impossibile avviare mDNS: {}"@, 26);
    reveal_strlit("не можу запустити mDNS: {}");
    lemma_one("не можу запустити mDNS: {}"@, 24);
}

proof fn row_err_no_config_dir()
    ensures
        agree(crate::i18n::catalog::ERR_NO_CONFIG_DIR, 0),
{
    reveal_strlit("nie wiem, gdzie trzymać ustawienia");
    lemma_plain("nie wiem, gdzie trzymać ustawienia"@);
    reveal_strlit("I do not know where to keep settings");
    lemma_plain("I do not know where to keep settings"@);
    reveal_strlit("ich weiß nicht, wo Einstellungen liegen sollen");
    lemma_plain("ich weiß nicht, wo Einstellungen liegen sollen"@);
    reveal_strlit("no sé dónde guardar los ajustes");
    lemma_plain("no sé dónde guardar los ajustes"@);
    reveal_strlit("je ne sais pas où garder les réglages");
    lemma_plain("je ne sais pas où garder les réglages"@);
    reveal_strlit("non so dove tenere le impostazioni");
    lemma_plain("non so dove tenere le impostazioni"@);
    reveal_strlit("не знаю, де зберігати налаштування");
    lemma_plain("не знаю, де зберігати налаштування"@);
}

proof fn row_err_no_default()
    ensures
        agree(crate::i18n::catalog::ERR_NO_DEFAULT, 1),
{
    reveal_strlit("brak domyślnego urządzenia {}");
    lemma_one("brak domyślnego urządzenia {}"@, 27);
    reveal_strlit("no default {} device");
    lemma_one("no default {} device"@, 11);
    reveal_strlit("kein Standardgerät für {}");
    lemma_one("kein Standardgerät für {}"@, 23);
    reveal_strlit("no hay dispositivo {} predeterminado");
    lemma_one("no hay dispositivo {} predeterminado"@, 19);
    reveal_strlit("pas de périphérique {} par défaut");
    lemma_one("pas de périphérique {} par défaut"@, 20);
    reveal_strlit("nessun dispositivo {} predefinito");
    lemma_one("nessun dispositivo {} predefinito"@, 19);
    reveal_strlit("немає типового {} пристрою");
    lemma_one("немає типового {} пристрою"@, 15);
}

proof fn row_err_no_device_idx()
    ensures
        agree(crate::i18n::catalog::ERR_NO_DEVICE_IDX, 2),
{
    reveal_strlit("brak urządzenia {} o numerze {}");
    lemma_two("brak urządzenia {} o numerze {}"@, 16, 29);
    reveal_strlit("no {} device with number {}");
    lemma_two("no {} device with number {}"@, 3, 25);
    reveal_strlit("kein Gerät für {} mit der Nummer {}");
    lemma_two("kein Gerät für {} mit der Nummer {}"@, 15, 33);
    reveal_strlit("no hay dispositivo {} con el número {}");
    lemma_two("no hay dispositivo {} con el número {}"@, 19, 36);
    reveal_strlit("pas de périphérique {} numéro {}");
    lemma_two("pas de périphérique {} numéro {}"@, 20, 30);
    reveal_strlit("nessun dispositivo {} con il numero {}");
    lemma_two("nessun dispositivo {} con il numero {}"@, 19, 36);
    reveal_strlit("немає {} пристрою з номером {}");
    lemma_two("немає {} пристрою з номером {}"@, 6, 28);
}

proof fn row_err_no_format()
    ensures
        agree(crate::i18n::catalog::ERR_NO_FORMAT, 1),
{
    reveal_strlit("urządzenie „{}” nie podaje żadnego formatu");
    lemma_one("urządzenie „{}” nie podaje żadnego formatu"@, 12);
    reveal_strlit("device “{}” offers no format");
    lemma_one("device “{}” offers no format"@, 8);
    reveal_strlit("Gerät „{}“ bietet kein Format an");
    lemma_one("Gerät „{}“ bietet kein Format an"@, 7);
    reveal_strlit("el dispositivo «{}» no ofrece ningún formato");
    lemma_one("el dispositivo «{}» no ofrece ningún formato"@, 16);
    reveal_strlit("le périphérique « {} » n'offre aucun format");
    lemma_one("le périphérique « {} » n'offre aucun format"@, 18);
    reveal_strlit("il dispositivo «{}» non offre alcun formato");
    lemma_one("il dispositivo «{}» non offre alcun formato"@, 16);
    reveal_strlit("пристрій «{}» не пропонує жодного формату");
    lemma_one("пристрій «{}» не пропонує жодного формату"@, 10);
}

proof fn row_err_nobody_typed_code()
    ensures
        agree(crate::i18n::catalog::ERR_NOBODY_TYPED_CODE, 0),
{
    reveal_strlit("nikt nie wpisał kodu");
    lemma_plain("nikt nie wpisał kodu"@);
    reveal_strlit("nobody typed the code");
    lemma_plain("nobody typed the code"@);
    reveal_strlit("niemand hat den Code eingegeben");
    lemma_plain("niemand hat den Code eingegeben"@);
    reveal_strlit("nadie escribió el código");
    lemma_plain("nadie escribió el código"@);
    reveal_strlit("personne n'a saisi le code");
    lemma_plain("personne n'a saisi le code"@);
    reveal_strlit("nessuno ha digitato il codice");
    lemma_plain("nessuno ha digitato il codice"@);
    reveal_strlit("ніхто не ввів код");
    lemma_plain("ніхто не ввів код"@);
}

proof fn row_err_pairing_cancelled()
    ensures
        agree(crate::i18n::catalog::ERR_PAIRING_CANCELLED, 0),
{
    reveal_strlit("parowanie przerwane");
    lemma_plain("parowanie przerwane"@);
    reveal_strlit("pairing cancelled");
    lemma_plain("pairing cancelled"@);
    reveal_strlit("Kopplung abgebrochen");
    lemma_plain("Kopplung abgebrochen"@);
    reveal_strlit("emparejamiento cancelado");
    lemma_plain("emparejamiento cancelado"@);
    reveal_strlit("appairage annulé");
    lemma_plain("appairage annulé"@);
    reveal_strlit("abbinamento annullato");
    lemma_plain("abbinamento annullato"@);
    reveal_strlit("парування перервано");
    lemma_plain("парування перервано"@);
}

proof fn row_err_peer_aborted_pairing()
    ensures
        agree(crate::i18n::catalog::ERR_PEER_ABORTED_PAIRING, 1),
{
    reveal_strlit("druga strona przerwała parowanie: {}");
    lemma_one("druga strona przerwała parowanie: {}"@, 34);
    reveal_strlit("the other side aborted the pairing: {}");
    lemma_one("the other side aborted the pairing: {}"@, 36);
    reveal_strlit("die andere Seite hat die Kopplung abgebrochen: {}");
    lemma_one("die andere Seite hat die Kopplung abgebrochen: {}"@, 47);
    reveal_strlit("la otra parte interrumpió el emparejamiento: {}");
    lemma_one("la otra parte interrumpió el emparejamiento: {}"@, 45);
    reveal_strlit("l'autre côté a interrompu l'appairage : {}");
    lemma_one("l'autre côté a interrompu l'appairage : {}"@, 40);
    reveal_strlit("l'altra parte ha interrotto l'abbinamento: {}");
    lemma_one("l'altra parte ha interrotto l'abbinamento: {}"@, 43);
    reveal_strlit("інша сторона перервала парування: {}");
    lemma_one("інша сторона перервала парування: {}"@, 34);
}

proof fn row_frames_n()
    ensures
        agree(crate::i18n::catalog::FRAMES_N, 1),
{
    reveal_strlit("{} ramek");
    lemma_one("{} ramek"@, 0);
    reveal_strlit("{} frames");
    lemma_one("{} frames"@, 0);
    reveal_strlit("{} Rahmen");
    lemma_one("{} Rahmen"@, 0);
    reveal_strlit("{} tramas");
    lemma_one("{} tramas"@, 0);
    reveal_strlit("{} trames");
    lemma_one("{} trames"@, 0);
    reveal_strlit("{} frame");
    lemma_one("{} frame"@, 0);
    reveal_strlit("{} кадрів");
    lemma_one("{} кадрів"@, 0);
}

proof fn row_help_bitrate()
    ensures
        agree(crate::i18n::catalog::HELP_BITRATE, 0),
{
    reveal_strlit("Przepływność Opusa. 24 kbps jest przezroczyste dla mowy.");
    lemma_plain("Przepływność Opusa. 24 kbps jest przezroczyste dla mowy."@);
    reveal_strlit("Opus bitrate. 24 kbps is transparent for speech.");
    lemma_plain("Opus bitrate. 24 kbps is transparent for speech."@);
    reveal_strlit("Opus-Bitrate. 24 kbps ist für Sprache transparent.");
    lemma_plain("Opus-Bitrate. 24 kbps ist für Sprache transparent."@);
    reveal_strlit("Tasa de bits de Opus. 24 kbps es transparente para la voz.");
    lemma_plain("Tasa de bits de Opus. 24 kbps es transparente para la voz."@);
    reveal_strlit("Débit Opus. 24 kbps est transparent pour la parole.");
    lemma_plain("Débit Opus. 24 kbps est transparent pour la parole."@);
    reveal_strlit("Bitrate di Opus. 24 kbps è trasparente per la voce.");
    lemma_plain("Bitrate di Opus. 24 kbps è trasparente per la voce."@);
    reveal_strlit("Бітрейт Opus. 24 кбіт/с прозорі для мовлення.");
    lemma_plain("Бітрейт Opus. 24 кбіт/с прозорі для мовлення."@);
}

proof fn row_help_buffer_ms()
    ensures
        agree(crate::i18n::catalog::HELP_BUFFER_MS, 0),
{
    reveal_strlit("Startowa głębokość bufora jitter.");
    lemma_plain("Startowa głębokość bufora jitter."@);
    reveal_strlit("Initial depth of the jitter buffer.");
    lemma_plain("Initial depth of the jitter buffer."@);
    reveal_strlit("Anfangstiefe des Jitter-Puffers.");
    lemma_plain("Anfangstiefe des Jitter-Puffers."@);
    reveal_strlit("Profundidad inicial del búfer de jitter.");
    lemma_plain("Profundidad inicial del búfer de jitter."@);
    reveal_strlit("Profondeur initiale du tampon de gigue.");
    lemma_plain("Profondeur initiale du tampon de gigue."@);
    reveal_strlit("Profondità iniziale del buffer di jitter.");
    lemma_plain("Profondità iniziale del buffer di jitter."@);
    reveal_strlit("Початкова глибина буфера джитера.");
    lemma_plain("Початкова глибина буфера джитера."@);
}

proof fn row_help_code()
    ensures
        agree(crate::i18n::catalog::HELP_CODE, 0),
{
    reveal_strlit("Kod parowania, gdy nie ma gdzie go wpisać (skrypty, usługi).");
    lemma_plain("Kod parowania, gdy nie ma gdzie go wpisać (skrypty, usługi)."@);
    reveal_strlit("Pairing code, where there is no place to type it (scripts, services).");
    lemma_plain("Pairing code, where there is no place to type it (scripts, services)."@);
    reveal_strlit("Kopplungscode, wo man ihn nicht eintippen kann (Skripte, Dienste).");
    lemma_plain("Kopplungscode, wo man ihn nicht eintippen kann (Skripte, Dienste)."@);
    reveal_strlit("Código de emparejamiento, donde no se puede escribir (scripts, servicios).");
    lemma_plain("Código de emparejamiento, donde no se puede escribir (scripts, servicios)."@);
    reveal_strlit("Code d'appairage, là où on ne peut pas le saisir (scripts, services).");
    lemma_plain("Code d'appairage, là où on ne peut pas le saisir (scripts, services)."@);
    reveal_strlit("Codice di abbinamento, dove non si può digitare (script, servizi).");
    lemma_plain("Codice di abbinamento, dove non si può digitare (script, servizi)."@);
    reveal_strlit("Код парування, коли його ніде ввести (скрипти, служби).");
    lemma_plain("Код парування, коли його ніде ввести (скрипти, служби)."@);
}

proof fn row_help_device()
    ensures
        agree(crate::i18n::catalog::HELP_DEVICE, 0),
{
    reveal_strlit("Źródło: `default`, `@3` albo fragment nazwy, np. `yeti`.");
    lemma_plain("Źródło: `default`, `@3` albo fragment nazwy, np. `yeti`."@);
    reveal_strlit("Source: `default`, `@3` or part of a name, e.g. `yeti`.");
    lemma_plain("Source: `default`, `@3` or part of a name, e.g. `yeti`."@);
    reveal_strlit("Quelle: `default`, `@3` oder ein Teil des Namens, z. B. `yeti`.");
    lemma_plain("Quelle: `default`, `@3` oder ein Teil des Namens, z. B. `yeti`."@);
    reveal_strlit("Fuente: `default`, `@3` o parte del nombre, p. ej. `yeti`.");
    lemma_plain("Fuente: `default`, `@3` o parte del nombre, p. ej. `yeti`."@);
    reveal_strlit("Source : `default`, `@3` ou une partie du nom, p. ex. `yeti`.");
    lemma_plain("Source : `default`, `@3` ou une partie du nom, p. ex. `yeti`."@);
    reveal_strlit("Sorgente: `default`, `@3` o parte del nome, p. es. `yeti`.");
    lemma_plain("Sorgente: `default`, `@3` o parte del nome, p. es. `yeti`."@);
    reveal_strlit("Джерело: `default`, `@3` або частина назви, напр. `yeti`.");
    lemma_plain("Джерело: `default`, `@3` або частина назви, напр. `yeti`."@);
}

proof fn row_help_devices()
    ensures
        agree(crate::i18n::catalog::HELP_DEVICES, 0),
{
    reveal_strlit("Wypisz urządzenia audio widoczne w systemie");
    lemma_plain("Wypisz urządzenia audio widoczne w systemie"@);
    reveal_strlit("List the audio devices of this system");
    lemma_plain("List the audio devices of this system"@);
    reveal_strlit("Audiogeräte dieses Systems auflisten");
    lemma_plain("Audiogeräte dieses Systems auflisten"@);
    reveal_strlit("Listar los dispositivos de audio del sistema");
    lemma_plain("Listar los dispositivos de audio del sistema"@);
    reveal_strlit("Lister les périphériques audio du système");
    lemma_plain("Lister les périphériques audio du système"@);
    reveal_strlit("Elenca i dispositivi audio del sistema");
    lemma_plain("Elenca i dispositivi audio del sistema"@);
    reveal_strlit("Показати аудіопристрої системи");
    lemma_plain("Показати аудіопристрої системи"@);
}

proof fn row_help_discover()
    ensures
        agree(crate::i18n::catalog::HELP_DISCOVER, 0),
{
    reveal_strlit("Pokaż odbiorniki widoczne w sieci lokalnej");
    lemma_plain("Pokaż odbiorniki widoczne w sieci lokalnej"@);
    reveal_strlit("Show the receivers on the local network");
    lemma_plain("Show the receivers on the local network"@);
    reveal_strlit("Empfänger im lokalen Netz zeigen");
    lemma_plain("Empfänger im lokalen Netz zeigen"@);
    reveal_strlit("Mostrar los receptores de la red local");
    lemma_plain("Mostrar los receptores de la red local"@);
    reveal_strlit("Montrer les récepteurs du réseau local");
    lemma_plain("Montrer les récepteurs du réseau local"@);
    reveal_strlit("Mostra i ricevitori della rete locale");
    lemma_plain("Mostra i ricevitori della rete locale"@);
    reveal_strlit("Показати приймачі в локальній мережі");
    lemma_plain("Показати приймачі в локальній мережі"@);
}

proof fn row_help_doctor()
    ensures
        agree(crate::i18n::catalog::HELP_DOCTOR, 0),
{
    reveal_strlit("Sprawdź, czy ta maszyna jest gotowa wysyłać i odbierać");
    lemma_plain("Sprawdź, czy ta maszyna jest gotowa wysyłać i odbierać"@);
    reveal_strlit("Check whether this machine is ready to send and receive");
    lemma_plain("Check whether this machine is ready to send and receive"@);
    reveal_strlit("Prüfen, ob dieser Computer senden und empfangen kann");
    lemma_plain("Prüfen, ob dieser Computer senden und empfangen kann"@);
    reveal_strlit("Comprobar si esta máquina puede enviar y recibir");
    lemma_plain("Comprobar si esta máquina puede enviar y recibir"@);
    reveal_strlit("Vérifier que cette machine peut envoyer et recevoir");
    lemma_plain("Vérifier que cette machine peut envoyer et recevoir"@);
    reveal_strlit("Verifica se questa macchina può inviare e ricevere");
    lemma_plain("Verifica se questa macchina può inviare e ricevere"@);
    reveal_strlit("Перевірити, чи готова ця машина надсилати й приймати");
    lemma_plain("Перевірити, чи готова ця машина надсилати й приймати"@);
}

proof fn row_help_drop_pct()
    ensures
        agree(crate::i18n::catalog::HELP_DROP_PCT, 0),
{
    reveal_strlit("Diagnostyka: gub celowo tyle procent pakietów, żeby sprawdzić FEC.");
    lemma_plain("Diagnostyka: gub celowo tyle procent pakietów, żeby sprawdzić FEC."@);
    reveal_strlit("Diagnostics: drop so many percent of packets on purpose, to try FEC.");
    lemma_plain("Diagnostics: drop so many percent of packets on purpose, to try FEC."@);
    reveal_strlit("Diagnose: so viel Prozent der Pakete absichtlich verwerfen, um FEC zu prüfen.");
    lemma_plain("Diagnose: so viel Prozent der Pakete absichtlich verwerfen, um FEC zu prüfen."@);
    reveal_strlit("Diagnóstico: perder a propósito este porcentaje de paquetes para probar FEC.");
    lemma_plain("Diagnóstico: perder a propósito este porcentaje de paquetes para probar FEC."@);
    reveal_strlit("Diagnostic : perdre exprès ce pourcentage de paquets pour essayer FEC.");
    lemma_plain("Diagnostic : perdre exprès ce pourcentage de paquets pour essayer FEC."@);
    reveal_strlit("Diagnostica: perdere di proposito questa percentuale di pacchetti per provare FEC.");
    lemma_plain("Diagnostica: perdere di proposito questa percentuale di pacchetti per provare FEC."@);
    reveal_strlit("Діагностика: навмисно губити стільки відсотків пакетів, щоб перевірити FEC.");
    lemma_plain("Діагностика: навмисно губити стільки відсотків пакетів, щоб перевірити FEC."@);
}

proof fn row_help_fixed_buffer()
    ensures
        agree(crate::i18n::catalog::HELP_FIXED_BUFFER, 0),
{
    reveal_strlit("Nie dopasowuj poduszki do jakości łącza — trzymaj zadaną wartość.");
    lemma_plain("Nie dopasowuj poduszki do jakości łącza — trzymaj zadaną wartość."@);
    reveal_strlit("Do not adapt the cushion to the link — keep the given value.");
    lemma_plain("Do not adapt the cushion to the link — keep the given value."@);
    reveal_strlit("Puffer nicht an die Verbindung anpassen — Wert beibehalten.");
    lemma_plain("Puffer nicht an die Verbindung anpassen — Wert beibehalten."@);
    reveal_strlit("No adaptar el margen al enlace: mantener el valor dado.");
    lemma_plain("No adaptar el margen al enlace: mantener el valor dado."@);
    reveal_strlit("Ne pas adapter le tampon à la liaison — garder la valeur donnée.");
    lemma_plain("Ne pas adapter le tampon à la liaison — garder la valeur donnée."@);
    reveal_strlit("Non adattare il margine al collegamento: tieni il valore dato.");
    lemma_plain("Non adattare il margine al collegamento: tieni il valore dato."@);
    reveal_strlit("Не підлаштовувати запас до каналу — тримати задане значення.");
    lemma_plain("Не підлаштовувати запас до каналу — тримати задане значення."@);
}

proof fn row_help_forget()
    ensures
        agree(crate::i18n::catalog::HELP_FORGET, 0),
{
    reveal_strlit("Zapomnij parowanie z podaną maszyną");
    lemma_plain("Zapomnij parowanie z podaną maszyną"@);
    reveal_strlit("Forget the pairing with a machine");
    lemma_plain("Forget the pairing with a machine"@);
    reveal_strlit("Kopplung mit einem Computer vergessen");
    lemma_plain("Kopplung mit einem Computer vergessen"@);
    reveal_strlit("Olvidar el emparejamiento con una máquina");
    lemma_plain("Olvidar el emparejamiento con una máquina"@);
    reveal_strlit("Oublier l'appairage avec une machine");
    lemma_plain("Oublier l'appairage avec une machine"@);
    reveal_strlit("Dimentica l'abbinamento con una macchina");
    lemma_plain("Dimentica l'abbinamento con una macchina"@);
    reveal_strlit("Забути парування з машиною");
    lemma_plain("Забути парування з машиною"@);
}

proof fn row_help_forget_peer()
    ensures
        agree(crate::i18n::catalog::HELP_FORGET_PEER, 0),
{
    reveal_strlit("Nazwa z listy `peers`.");
    lemma_plain("Nazwa z listy `peers`."@);
    reveal_strlit("A name from the `peers` list.");
    lemma_plain("A name from the `peers` list."@);
    reveal_strlit("Ein Name aus der Liste `peers`.");
    lemma_plain("Ein Name aus der Liste `peers`."@);
    reveal_strlit("Un nombre de la lista `peers`.");
    lemma_plain("Un nombre de la lista `peers`."@);
    reveal_strlit("Un nom de la liste `peers`.");
    lemma_plain("Un nom de la liste `peers`."@);
    reveal_strlit("Un nome dall'elenco `peers`.");
    lemma_plain("Un nome dall'elenco `peers`."@);
    reveal_strlit("Назва зі списку `peers`.");
    lemma_plain("Назва зі списку `peers`."@);
}

proof fn row_help_gain()
    ensures
        agree(crate::i18n::catalog::HELP_GAIN, 0),
{
    reveal_strlit("Wzmocnienie w decybelach, dodatnie podbija cichy mikrofon.");
    lemma_plain("Wzmocnienie w decybelach, dodatnie podbija cichy mikrofon."@);
    reveal_strlit("Gain in decibels; positive lifts a quiet microphone.");
    lemma_plain("Gain in decibels; positive lifts a quiet microphone."@);
    reveal_strlit("Verstärkung in Dezibel; positiv hebt ein leises Mikrofon an.");
    lemma_plain("Verstärkung in Dezibel; positiv hebt ein leises Mikrofon an."@);
    reveal_strlit("Ganancia en decibelios; positiva realza un micrófono bajo.");
    lemma_plain("Ganancia en decibelios; positiva realza un micrófono bajo."@);
    reveal_strlit("Gain en décibels ; positif relève un micro faible.");
    lemma_plain("Gain en décibels ; positif relève un micro faible."@);
    reveal_strlit("Guadagno in decibel; positivo alza un microfono basso.");
    lemma_plain("Guadagno in decibel; positivo alza un microfono basso."@);
    reveal_strlit("Підсилення в децибелах; додатне піднімає тихий мікрофон.");
    lemma_plain("Підсилення в децибелах; додатне піднімає тихий мікрофон."@);
}

proof fn row_help_listen()
    ensures
        agree(crate::i18n::catalog::HELP_LISTEN, 0),
{
    reveal_strlit("Interfejs i port do nasłuchu.");
    lemma_plain("Interfejs i port do nasłuchu."@);
    reveal_strlit("Interface and port to listen on.");
    lemma_plain("Interface and port to listen on."@);
    reveal_strlit("Schnittstelle und Port zum Lauschen.");
    lemma_plain("Schnittstelle und Port zum Lauschen."@);
    reveal_strlit("Interfaz y puerto de escucha.");
    lemma_plain("Interfaz y puerto de escucha."@);
    reveal_strlit("Interface et port d'écoute.");
    lemma_plain("Interface et port d'écoute."@);
    reveal_strlit("Interfaccia e porta di ascolto.");
    lemma_plain("Interfaccia e porta di ascolto."@);
    reveal_strlit("Інтерфейс і порт для прослуховування.");
    lemma_plain("Інтерфейс і порт для прослуховування."@);
}

proof fn row_help_no_announce()
    ensures
        agree(crate::i18n::catalog::HELP_NO_ANNOUNCE, 0),
{
    reveal_strlit("Nie ogłaszaj się w sieci — druga strona poda adres ręcznie.");
    lemma_plain("Nie ogłaszaj się w sieci — druga strona poda adres ręcznie."@);
    reveal_strlit("Do not announce on the network — the other side gives the address by hand.");
    lemma_plain("Do not announce on the network — the other side gives the address by hand."@);
    reveal_strlit("Nicht im Netz bekannt machen — die andere Seite gibt die Adresse selbst an.");
    lemma_plain("Nicht im Netz bekannt machen — die andere Seite gibt die Adresse selbst an."@);
    reveal_strlit("No anunciarse en la red: la otra parte dará la dirección a mano.");
    lemma_plain("No anunciarse en la red: la otra parte dará la dirección a mano."@);
    reveal_strlit("Ne pas s'annoncer sur le réseau — l'autre côté donne l'adresse à la main.");
    lemma_plain("Ne pas s'annoncer sur le réseau — l'autre côté donne l'adresse à la main."@);
    reveal_strlit("Non annunciarsi nella rete: l'altra parte darà l'indirizzo a mano.");
    lemma_plain("Non annunciarsi nella rete: l'altra parte darà l'indirizzo a mano."@);
    reveal_strlit("Не оголошуватися в мережі — інша сторона вкаже адресу вручну.");
    lemma_plain("Не оголошуватися в мережі — інша сторона вкаже адресу вручну."@);
}

proof fn row_help_peers()
    ensures
        agree(crate::i18n::catalog::HELP_PEERS, 0),
{
    reveal_strlit("Wypisz sparowane maszyny");
    lemma_plain("Wypisz sparowane maszyny"@);
    reveal_strlit("List the paired machines");
    lemma_plain("List the paired machines"@);
    reveal_strlit("Gekoppelte Computer auflisten");
    lemma_plain("Gekoppelte Computer auflisten"@);
    reveal_strlit("Listar las máquinas emparejadas");
    lemma_plain("Listar las máquinas emparejadas"@);
    reveal_strlit("Lister les machines appairées");
    lemma_plain("Lister les machines appairées"@);
    reveal_strlit("Elenca le macchine abbinate");
    lemma_plain("Elenca le macchine abbinate"@);
    reveal_strlit("Показати спаровані машини");
    lemma_plain("Показати спаровані машини"@);
}

proof fn row_help_recv()
    ensures
        agree(crate::i18n::catalog::HELP_RECV, 0),
{
    reveal_strlit("Odbieraj mikrofon i wpuszczaj go w wirtualne urządzenie");
    lemma_plain("Odbieraj mikrofon i wpuszczaj go w wirtualne urządzenie"@);
    reveal_strlit("Receive a microphone and feed it into a virtual device");
    lemma_plain("Receive a microphone and feed it into a virtual device"@);
    reveal_strlit("Ein Mikrofon empfangen und in ein virtuelles Gerät leiten");
    lemma_plain("Ein Mikrofon empfangen und in ein virtuelles Gerät leiten"@);
    reveal_strlit("Recibir un micrófono y llevarlo a un dispositivo virtual");
    lemma_plain("Recibir un micrófono y llevarlo a un dispositivo virtual"@);
    reveal_strlit("Recevoir un micro et l'envoyer dans un périphérique virtuel");
    lemma_plain("Recevoir un micro et l'envoyer dans un périphérique virtuel"@);
    reveal_strlit("Ricevi un microfono e portalo in un dispositivo virtuale");
    lemma_plain("Ricevi un microfono e portalo in un dispositivo virtuale"@);
    reveal_strlit("Приймати мікрофон і подавати його у віртуальний пристрій");
    lemma_plain("Приймати мікрофон і подавати його у віртуальний пристрій"@);
}

proof fn row_help_send()
    ensures
        agree(crate::i18n::catalog::HELP_SEND, 0),
{
    reveal_strlit("Wysyłaj mikrofon do drugiego komputera");
    lemma_plain("Wysyłaj mikrofon do drugiego komputera"@);
    reveal_strlit("Send a microphone to the other computer");
    lemma_plain("Send a microphone to the other computer"@);
    reveal_strlit("Ein Mikrofon an den anderen Computer senden");
    lemma_plain("Ein Mikrofon an den anderen Computer senden"@);
    reveal_strlit("Enviar un micrófono al otro ordenador");
    lemma_plain("Enviar un micrófono al otro ordenador"@);
    reveal_strlit("Envoyer un micro à l'autre ordinateur");
    lemma_plain("Envoyer un micro à l'autre ordinateur"@);
    reveal_strlit("Invia un microfono all'altro computer");
    lemma_plain("Invia un microfono all'altro computer"@);
    reveal_strlit("Надсилати мікрофон на інший комп'ютер");
    lemma_plain("Надсилати мікрофон на інший комп'ютер"@);
}

proof fn row_help_sink()
    ensures
        agree(crate::i18n::catalog::HELP_SINK, 0),
{
    reveal_strlit("Ujście: `auto`, `virtual`, `device` albo fragment nazwy urządzenia.");
    lemma_plain("Ujście: `auto`, `virtual`, `device` albo fragment nazwy urządzenia."@);
    reveal_strlit("Sink: `auto`, `virtual`, `device` or part of a device name.");
    lemma_plain("Sink: `auto`, `virtual`, `device` or part of a device name."@);
    reveal_strlit("Ziel: `auto`, `virtual`, `device` oder ein Teil des Gerätenamens.");
    lemma_plain("Ziel: `auto`, `virtual`, `device` oder ein Teil des Gerätenamens."@);
    reveal_strlit("Destino: `auto`, `virtual`, `device` o parte del nombre del dispositivo.");
    lemma_plain("Destino: `auto`, `virtual`, `device` o parte del nombre del dispositivo."@);
    reveal_strlit("Sortie : `auto`, `virtual`, `device` ou une partie du nom du périphérique.");
    lemma_plain("Sortie : `auto`, `virtual`, `device` ou une partie du nom du périphérique."@);
    reveal_strlit("Uscita: `auto`, `virtual`, `device` o parte del nome del dispositivo.");
    lemma_plain("Uscita: `auto`, `virtual`, `device` o parte del nome del dispositivo."@);
    reveal_strlit("Вихід: `auto`, `virtual`, `device` або частина назви пристрою.");
    lemma_plain("Вихід: `auto`, `virtual`, `device` або частина назви пристрою."@);
}

proof fn row_help_to()
    ensures
        agree(crate::i18n::catalog::HELP_TO, 0),
{
    reveal_strlit("Odbiornik: adres, `adres:port` albo nazwa z `micbridge discover`.");
    lemma_plain("Odbiornik: adres, `adres:port` albo nazwa z `micbridge discover`."@);
    reveal_strlit("Receiver: an address, `address:port` or a name from `micbridge discover`.");
    lemma_plain("Receiver: an address, `address:port` or a name from `micbridge discover`."@);
    reveal_strlit("Empfänger: Adresse, `Adresse:Port` oder ein Name aus `micbridge discover`.");
    lemma_plain("Empfänger: Adresse, `Adresse:Port` oder ein Name aus `micbridge discover`."@);
    reveal_strlit("Receptor: dirección, `dirección:puerto` o un nombre de `micbridge discover`.");
    lemma_plain("Receptor: dirección, `dirección:puerto` o un nombre de `micbridge discover`."@);
    reveal_strlit("Récepteur : adresse, `adresse:port` ou un nom de `micbridge discover`.");
    lemma_plain("Récepteur : adresse, `adresse:port` ou un nom de `micbridge discover`."@);
    reveal_strlit("Ricevitore: indirizzo, `indirizzo:porta` o un nome da `micbridge discover`.");
    lemma_plain("Ricevitore: indirizzo, `indirizzo:porta` o un nome da `micbridge discover`."@);
    reveal_strlit("Приймач: адреса, `адреса:порт` або назва з `micbridge discover`.");
    lemma_plain("Приймач: адреса, `адреса:порт` або назва з `micbridge discover`."@);
}

proof fn row_help_verbose()
    ensures
        agree(crate::i18n::catalog::HELP_VERBOSE, 0),
{
    reveal_strlit("Więcej logów (można powtórzyć: -vv).");
    lemma_plain("Więcej logów (można powtórzyć: -vv)."@);
    reveal_strlit("More logs (may be repeated: -vv).");
    lemma_plain("More logs (may be repeated: -vv)."@);
    reveal_strlit("Mehr Protokoll (wiederholbar: -vv).");
    lemma_plain("Mehr Protokoll (wiederholbar: -vv)."@);
    reveal_strlit("Más registros (se puede repetir: -vv).");
    lemma_plain("Más registros (se puede repetir: -vv)."@);
    reveal_strlit("Plus de journaux (répétable : -vv).");
    lemma_plain("Plus de journaux (répétable : -vv)."@);
    reveal_strlit("Più log (ripetibile: -vv).");
    lemma_plain("Più log (ripetibile: -vv)."@);
    reveal_strlit("Більше журналів (можна повторити: -vv).");
    lemma_plain("Більше журналів (можна повторити: -vv)."@);
}

proof fn row_help_window_ms()
    ensures
        agree(crate::i18n::catalog::HELP_WINDOW_MS, 0),
{
    reveal_strlit("Jak długo słuchać odpowiedzi.");
    lemma_plain("Jak długo słuchać odpowiedzi."@);
    reveal_strlit("How long to listen for answers.");
    lemma_plain("How long to listen for answers."@);
    reveal_strlit("Wie lange auf Antworten gewartet wird.");
    lemma_plain("Wie lange auf Antworten gewartet wird."@);
    reveal_strlit("Cuánto tiempo esperar respuestas.");
    lemma_plain("Cuánto tiempo esperar respuestas."@);
    reveal_strlit("Combien de temps écouter les réponses.");
    lemma_plain("Combien de temps écouter les réponses."@);
    reveal_strlit("Quanto attendere le risposte.");
    lemma_plain("Quanto attendere le risposte."@);
    reveal_strlit("Як довго чекати відповідей.");
    lemma_plain("Як довго чекати відповідей."@);
}

proof fn row_latency_loss()
    ensures
        agree(crate::i18n::catalog::LATENCY_LOSS, 2),
{
    reveal_strlit("opóźnienie {} ms, straty {}%");
    lemma_two("opóźnienie {} ms, straty {}%"@, 11, 25);
    reveal_strlit("latency {} ms, loss {}%");
    lemma_two("latency {} ms, loss {}%"@, 8, 20);
    reveal_strlit("Latenz {} ms, Verlust {}%");
    lemma_two("Latenz {} ms, Verlust {}%"@, 7, 22);
    reveal_strlit("latencia {} ms, pérdida {}%");
    lemma_two("latencia {} ms, pérdida {}%"@, 9, 24);
    reveal_strlit("latence {} ms, pertes {}%");
    lemma_two("latence {} ms, pertes {}%"@, 8, 22);
    reveal_strlit("latenza {} ms, perdite {}%");
    lemma_two("latenza {} ms, perdite {}%"@, 8, 23);
    reveal_strlit("затримка {} мс, втрати {}%");
    lemma_two("затримка {} мс, втрати {}%"@, 9, 23);
}

proof fn row_nobody_listening()
    ensures
        agree(crate::i18n::catalog::NOBODY_LISTENING, 0),
{
    reveal_strlit("czekam — nikt jeszcze nie słucha");
    lemma_plain("czekam — nikt jeszcze nie słucha"@);
    reveal_strlit("waiting — nobody is listening yet");
    lemma_plain("waiting — nobody is listening yet"@);
    reveal_strlit("warte — noch hört niemand zu");
    lemma_plain("warte — noch hört niemand zu"@);
    reveal_strlit("esperando: aún no escucha nadie");
    lemma_plain("esperando: aún no escucha nadie"@);
    reveal_strlit("en attente — personne n'écoute encore");
    lemma_plain("en attente — personne n'écoute encore"@);
    reveal_strlit("in attesa: nessuno ascolta ancora");
    lemma_plain("in attesa: nessuno ascolta ancora"@);
    reveal_strlit("чекаю — ще ніхто не слухає");
    lemma_plain("чекаю — ще ніхто не слухає"@);
}

proof fn row_num_bitrate()
    ensures
        agree(crate::i18n::catalog::NUM_BITRATE, 0),
{
    reveal_strlit("Przepływność");
    lemma_plain("Przepływność"@);
    reveal_strlit("Bitrate");
    lemma_plain("Bitrate"@);
    reveal_strlit("Bitrate");
    lemma_plain("Bitrate"@);
    reveal_strlit("Tasa de bits");
    lemma_plain("Tasa de bits"@);
    reveal_strlit("Débit");
    lemma_plain("Débit"@);
    reveal_strlit("Bitrate");
    lemma_plain("Bitrate"@);
    reveal_strlit("Бітрейт");
    lemma_plain("Бітрейт"@);
}

proof fn row_num_card()
    ensures
        agree(crate::i18n::catalog::NUM_CARD, 0),
{
    reveal_strlit("Karta");
    lemma_plain("Karta"@);
    reveal_strlit("Card");
    lemma_plain("Card"@);
    reveal_strlit("Karte");
    lemma_plain("Karte"@);
    reveal_strlit("Tarjeta");
    lemma_plain("Tarjeta"@);
    reveal_strlit("Carte");
    lemma_plain("Carte"@);
    reveal_strlit("Scheda");
    lemma_plain("Scheda"@);
    reveal_strlit("Карта");
    lemma_plain("Карта"@);
}

proof fn row_num_cushion()
    ensures
        agree(crate::i18n::catalog::NUM_CUSHION, 0),
{
    reveal_strlit("Poduszka");
    lemma_plain("Poduszka"@);
    reveal_strlit("Cushion");
    lemma_plain("Cushion"@);
    reveal_strlit("Puffer");
    lemma_plain("Puffer"@);
    reveal_strlit("Margen");
    lemma_plain("Margen"@);
    reveal_strlit("Tampon");
    lemma_plain("Tampon"@);
    reveal_strlit("Margine");
    lemma_plain("Margine"@);
    reveal_strlit("Запас");
    lemma_plain("Запас"@);
}

proof fn row_num_drift()
    ensures
        agree(crate::i18n::catalog::NUM_DRIFT, 0),
{
    reveal_strlit("Dryf zegarów");
    lemma_plain("Dryf zegarów"@);
    reveal_strlit("Clock drift");
    lemma_plain("Clock drift"@);
    reveal_strlit("Taktdrift");
    lemma_plain("Taktdrift"@);
    reveal_strlit("Deriva de reloj");
    lemma_plain("Deriva de reloj"@);
    reveal_strlit("Dérive d'horloge");
    lemma_plain("Dérive d'horloge"@);
    reveal_strlit("Deriva del clock");
    lemma_plain("Deriva del clock"@);
    reveal_strlit("Дрейф годинників");
    lemma_plain("Дрейф годинників"@);
}

proof fn row_num_dropped()
    ensures
        agree(crate::i18n::catalog::NUM_DROPPED, 0),
{
    reveal_strlit("Wyrzucono");
    lemma_plain("Wyrzucono"@);
    reveal_strlit("Dropped");
    lemma_plain("Dropped"@);
    reveal_strlit("Verworfen");
    lemma_plain("Verworfen"@);
    reveal_strlit("Descartado");
    lemma_plain("Descartado"@);
    reveal_strlit("Écarté");
    lemma_plain("Écarté"@);
    reveal_strlit("Scartati");
    lemma_plain("Scartati"@);
    reveal_strlit("Викинуто");
    lemma_plain("Викинуто"@);
}

proof fn row_num_fec()
    ensures
        agree(crate::i18n::catalog::NUM_FEC, 0),
{
    reveal_strlit("Odtworzono");
    lemma_plain("Odtworzono"@);
    reveal_strlit("Recovered");
    lemma_plain("Recovered"@);
    reveal_strlit("Rekonstruiert");
    lemma_plain("Rekonstruiert"@);
    reveal_strlit("Recuperado");
    lemma_plain("Recuperado"@);
    reveal_strlit("Récupéré");
    lemma_plain("Récupéré"@);
    reveal_strlit("Recuperati");
    lemma_plain("Recuperati"@);
    reveal_strlit("Відновлено");
    lemma_plain("Відновлено"@);
}

proof fn row_num_fec_for()
    ensures
        agree(crate::i18n::catalog::NUM_FEC_FOR, 0),
{
    reveal_strlit("Korekcja na");
    lemma_plain("Korekcja na"@);
    reveal_strlit("Correction for");
    lemma_plain("Correction for"@);
    reveal_strlit("Korrektur für");
    lemma_plain("Korrektur für"@);
    reveal_strlit("Corrección para");
    lemma_plain("Corrección para"@);
    reveal_strlit("Correction pour");
    lemma_plain("Correction pour"@);
    reveal_strlit("Correzione per");
    lemma_plain("Correzione per"@);
    reveal_strlit("Корекція на");
    lemma_plain("Корекція на"@);
}

proof fn row_num_frames()
    ensures
        agree(crate::i18n::catalog::NUM_FRAMES, 0),
{
    reveal_strlit("Ramki");
    lemma_plain("Ramki"@);
    reveal_strlit("Frames");
    lemma_plain("Frames"@);
    reveal_strlit("Rahmen");
    lemma_plain("Rahmen"@);
    reveal_strlit("Tramas");
    lemma_plain("Tramas"@);
    reveal_strlit("Trames");
    lemma_plain("Trames"@);
    reveal_strlit("Frame");
    lemma_plain("Frame"@);
    reveal_strlit("Кадри");
    lemma_plain("Кадри"@);
}

proof fn row_num_jitter()
    ensures
        agree(crate::i18n::catalog::NUM_JITTER, 0),
{
    reveal_strlit("Jitter");
    lemma_plain("Jitter"@);
    reveal_strlit("Jitter");
    lemma_plain("Jitter"@);
    reveal_strlit("Jitter");
    lemma_plain("Jitter"@);
    reveal_strlit("Jitter");
    lemma_plain("Jitter"@);
    reveal_strlit("Gigue");
    lemma_plain("Gigue"@);
    reveal_strlit("Jitter");
    lemma_plain("Jitter"@);
    reveal_strlit("Джитер");
    lemma_plain("Джитер"@);
}

proof fn row_num_lost()
    ensures
        agree(crate::i18n::catalog::NUM_LOST, 0),
{
    reveal_strlit("Zgubiono");
    lemma_plain("Zgubiono"@);
    reveal_strlit("Lost");
    lemma_plain("Lost"@);
    reveal_strlit("Verloren");
    lemma_plain("Verloren"@);
    reveal_strlit("Perdido");
    lemma_plain("Perdido"@);
    reveal_strlit("Perdu");
    lemma_plain("Perdu"@);
    reveal_strlit("Persi");
    lemma_plain("Persi"@);
    reveal_strlit("Загублено");
    lemma_plain("Загублено"@);
}

proof fn row_num_peak()
    ensures
        agree(crate::i18n::catalog::NUM_PEAK, 0),
{
    reveal_strlit("Szczyt");
    lemma_plain("Szczyt"@);
    reveal_strlit("Peak");
    lemma_plain("Peak"@);
    reveal_strlit("Spitze");
    lemma_plain("Spitze"@);
    reveal_strlit("Pico");
    lemma_plain("Pico"@);
    reveal_strlit("Crête");
    lemma_plain("Crête"@);
    reveal_strlit("Picco");
    lemma_plain("Picco"@);
    reveal_strlit("Пік");
    lemma_plain("Пік"@);
}

proof fn row_num_starved()
    ensures
        agree(crate::i18n::catalog::NUM_STARVED, 0),
{
    reveal_strlit("Niedomiar");
    lemma_plain("Niedomiar"@);
    reveal_strlit("Starved");
    lemma_plain("Starved"@);
    reveal_strlit("Unterlauf");
    lemma_plain("Unterlauf"@);
    reveal_strlit("Falta");
    lemma_plain("Falta"@);
    reveal_strlit("Manque");
    lemma_plain("Manque"@);
    reveal_strlit("Mancanti");
    lemma_plain("Mancanti"@);
    reveal_strlit("Нестача");
    lemma_plain("Нестача"@);
}

proof fn row_pct_loss()
    ensures
        agree(crate::i18n::catalog::PCT_LOSS, 1),
{
    reveal_strlit("{}% strat");
    lemma_one("{}% strat"@, 0);
    reveal_strlit("{}% loss");
    lemma_one("{}% loss"@, 0);
    reveal_strlit("{}% Verlust");
    lemma_one("{}% Verlust"@, 0);
    reveal_strlit("{}% de pérdida");
    lemma_one("{}% de pérdida"@, 0);
    reveal_strlit("{}% de pertes");
    lemma_one("{}% de pertes"@, 0);
    reveal_strlit("{}% di perdite");
    lemma_one("{}% di perdite"@, 0);
    reveal_strlit("{}% втрат");
    lemma_one("{}% втрат"@, 0);
}

proof fn row_quit()
    ensures
        agree(crate::i18n::catalog::QUIT, 0),
{
    reveal_strlit("Zakończ");
    lemma_plain("Zakończ"@);
    reveal_strlit("Quit");
    lemma_plain("Quit"@);
    reveal_strlit("Beenden");
    lemma_plain("Beenden"@);
    reveal_strlit("Salir");
    lemma_plain("Salir"@);
    reveal_strlit("Quitter");
    lemma_plain("Quitter"@);
    reveal_strlit("Esci");
    lemma_plain("Esci"@);
    reveal_strlit("Вийти");
    lemma_plain("Вийти"@);
}

proof fn row_samples_n()
    ensures
        agree(crate::i18n::catalog::SAMPLES_N, 1),
{
    reveal_strlit("{} próbek");
    lemma_one("{} próbek"@, 0);
    reveal_strlit("{} samples");
    lemma_one("{} samples"@, 0);
    reveal_strlit("{} Samples");
    lemma_one("{} Samples"@, 0);
    reveal_strlit("{} muestras");
    lemma_one("{} muestras"@, 0);
    reveal_strlit("{} échantillons");
    lemma_one("{} échantillons"@, 0);
    reveal_strlit("{} campioni");
    lemma_one("{} campioni"@, 0);
    reveal_strlit("{} семплів");
    lemma_one("{} семплів"@, 0);
}

proof fn row_ses_cannot_announce()
    ensures
        agree(crate::i18n::catalog::SES_CANNOT_ANNOUNCE, 0),
{
    reveal_strlit("Nie mogę ogłosić się w sieci; druga strona musi podać adres.");
    lemma_plain("Nie mogę ogłosić się w sieci; druga strona musi podać adres."@);
    reveal_strlit("Cannot announce on the network; the other side has to give the address.");
    lemma_plain("Cannot announce on the network; the other side has to give the address."@);
    reveal_strlit("Keine Bekanntmachung im Netz möglich; die andere Seite muss die Adresse angeben.");
    lemma_plain("Keine Bekanntmachung im Netz möglich; die andere Seite muss die Adresse angeben."@);
    reveal_strlit("No puedo anunciarme en la red; la otra parte debe dar la dirección.");
    lemma_plain("No puedo anunciarme en la red; la otra parte debe dar la dirección."@);
    reveal_strlit("Impossible de s'annoncer sur le réseau ; l'autre côté doit donner l'adresse.");
    lemma_plain("Impossible de s'annoncer sur le réseau ; l'autre côté doit donner l'adresse."@);
    reveal_strlit("Impossibile annunciarsi nella rete; l'altra parte deve dare l'indirizzo.");
    lemma_plain("Impossibile annunciarsi nella rete; l'altra parte deve dare l'indirizzo."@);
    reveal_strlit("Не можу оголоситися в мережі; інша сторона має вказати адресу.");
    lemma_plain("Не можу оголоситися в мережі; інша сторона має вказати адресу."@);
}

proof fn row_ses_conversion()
    ensures
        agree(crate::i18n::catalog::SES_CONVERSION, 2),
{
    reveal_strlit("Konwersja {} Hz → {} Hz.");
    lemma_two("Konwersja {} Hz → {} Hz."@, 10, 18);
    reveal_strlit("Converting {} Hz → {} Hz.");
    lemma_two("Converting {} Hz → {} Hz."@, 11, 19);
    reveal_strlit("Umrechnung {} Hz → {} Hz.");
    lemma_two("Umrechnung {} Hz → {} Hz."@, 11, 19);
    reveal_strlit("Conversión {} Hz → {} Hz.");
    lemma_two("Conversión {} Hz → {} Hz."@, 11, 19);
    reveal_strlit("Conversion {} Hz → {} Hz.");
    lemma_two("Conversion {} Hz → {} Hz."@, 11, 19);
    reveal_strlit("Conversione {} Hz → {} Hz.");
    lemma_two("Conversione {} Hz → {} Hz."@, 12, 20);
    reveal_strlit("Перетворення {} Гц → {} Гц.");
    lemma_two("Перетворення {} Гц → {} Гц."@, 13, 21);
}

proof fn row_ses_ended()
    ensures
        agree(crate::i18n::catalog::SES_ENDED, 1),
{
    reveal_strlit("Sesja zakończona: {}");
    lemma_one("Sesja zakończona: {}"@, 18);
    reveal_strlit("Session ended: {}");
    lemma_one("Session ended: {}"@, 15);
    reveal_strlit("Sitzung beendet: {}");
    lemma_one("Sitzung beendet: {}"@, 17);
    reveal_strlit("Sesión terminada: {}");
    lemma_one("Sesión terminada: {}"@, 18);
    reveal_strlit("Session terminée : {}");
    lemma_one("Session terminée : {}"@, 19);
    reveal_strlit("Sessione terminata: {}");
    lemma_one("Sessione terminata: {}"@, 20);
    reveal_strlit("Сеанс завершено: {}");
    lemma_one("Сеанс завершено: {}"@, 17);
}

proof fn row_ses_listening()
    ensures
        agree(crate::i18n::catalog::SES_LISTENING, 1),
{
    reveal_strlit("Nasłuchuję na {}.");
    lemma_one("Nasłuchuję na {}."@, 14);
    reveal_strlit("Listening on {}.");
    lemma_one("Listening on {}."@, 13);
    reveal_strlit("Lausche auf {}.");
    lemma_one("Lausche auf {}."@, 12);
    reveal_strlit("Escuchando en {}.");
    lemma_one("Escuchando en {}."@, 14);
    reveal_strlit("À l'écoute sur {}.");
    lemma_one("À l'écoute sur {}."@, 15);
    reveal_strlit("In ascolto su {}.");
    lemma_one("In ascolto su {}."@, 14);
    reveal_strlit("Слухаю на {}.");
    lemma_one("Слухаю на {}."@, 10);
}

proof fn row_ses_pick_mic_device()
    ensures
        agree(crate::i18n::catalog::SES_PICK_MIC_DEVICE, 0),
{
    reveal_strlit("  W aplikacji wybierz drugi koniec wirtualnego kabla jako mikrofon.");
    lemma_plain("  W aplikacji wybierz drugi koniec wirtualnego kabla jako mikrofon."@);
    reveal_strlit("  In the application pick the other end of the virtual cable as the microphone.");
    lemma_plain("  In the application pick the other end of the virtual cable as the microphone."@);
    reveal_strlit("  Wähle in der Anwendung das andere Ende des virtuellen Kabels als Mikrofon.");
    lemma_plain("  Wähle in der Anwendung das andere Ende des virtuellen Kabels als Mikrofon."@);
    reveal_strlit("  En la aplicación elige el otro extremo del cable virtual como micrófono.");
    lemma_plain("  En la aplicación elige el otro extremo del cable virtual como micrófono."@);
    reveal_strlit("  Dans l'application, choisissez l'autre bout du câble virtuel comme micro.");
    lemma_plain("  Dans l'application, choisissez l'autre bout du câble virtuel comme micro."@);
    reveal_strlit("  Nell'applicazione scegli l'altro capo del cavo virtuale come microfono.");
    lemma_plain("  Nell'applicazione scegli l'altro capo del cavo virtuale come microfono."@);
    reveal_strlit("  У програмі виберіть інший кінець віртуального кабелю як мікрофон.");
    lemma_plain("  У програмі виберіть інший кінець віртуального кабелю як мікрофон."@);
}

proof fn row_ses_pick_mic_named()
    ensures
        agree(crate::i18n::catalog::SES_PICK_MIC_NAMED, 1),
{
    reveal_strlit("  W aplikacji wybierz mikrofon „{}”.");
    lemma_one("  W aplikacji wybierz mikrofon „{}”."@, 32);
    reveal_strlit("  In the application pick the microphone “{}”.");
    lemma_one("  In the application pick the microphone “{}”."@, 42);
    reveal_strlit("  Wähle in der Anwendung das Mikrofon „{}“.");
    lemma_one("  Wähle in der Anwendung das Mikrofon „{}“."@, 39);
    reveal_strlit("  En la aplicación elige el micrófono «{}».");
    lemma_one("  En la aplicación elige el micrófono «{}»."@, 39);
    reveal_strlit("  Dans l'application, choisissez le micro « {} ».");
    lemma_one("  Dans l'application, choisissez le micro « {} »."@, 44);
    reveal_strlit("  Nell'applicazione scegli il microfono «{}».");
    lemma_one("  Nell'applicazione scegli il microfono «{}»."@, 41);
    reveal_strlit("  У програмі виберіть мікрофон «{}».");
    lemma_one("  У програмі виберіть мікрофон «{}»."@, 32);
}

proof fn row_ses_source()
    ensures
        agree(crate::i18n::catalog::SES_SOURCE, 2),
{
    reveal_strlit("{} (źródło: {})");
    lemma_two("{} (źródło: {})"@, 0, 12);
    reveal_strlit("{} (source: {})");
    lemma_two("{} (source: {})"@, 0, 12);
    reveal_strlit("{} (Quelle: {})");
    lemma_two("{} (Quelle: {})"@, 0, 12);
    reveal_strlit("{} (fuente: {})");
    lemma_two("{} (fuente: {})"@, 0, 12);
    reveal_strlit("{} (source : {})");
    lemma_two("{} (source : {})"@, 0, 13);
    reveal_strlit("{} (sorgente: {})");
    lemma_two("{} (sorgente: {})"@, 0, 14);
    reveal_strlit("{} (джерело: {})");
    lemma_two("{} (джерело: {})"@, 0, 13);
}

proof fn row_ses_visible_as()
    ensures
        agree(crate::i18n::catalog::SES_VISIBLE_AS, 1),
{
    reveal_strlit("Widać mnie w sieci jako „{}”.");
    lemma_one("Widać mnie w sieci jako „{}”."@, 25);
    reveal_strlit("Visible on the network as “{}”.");
    lemma_one("Visible on the network as “{}”."@, 27);
    reveal_strlit("Im Netz sichtbar als „{}“.");
    lemma_one("Im Netz sichtbar als „{}“."@, 22);
    reveal_strlit("Visible en la red como «{}».");
    lemma_one("Visible en la red como «{}»."@, 24);
    reveal_strlit("Visible sur le réseau comme « {} ».");
    lemma_one("Visible sur le réseau comme « {} »."@, 30);
    reveal_strlit("Visibile in rete come «{}».");
    lemma_one("Visibile in rete come «{}»."@, 23);
    reveal_strlit("Видно в мережі як «{}».");
    lemma_one("Видно в мережі як «{}»."@, 19);
}

proof fn row_ses_wait_next()
    ensures
        agree(crate::i18n::catalog::SES_WAIT_NEXT, 0),
{
    reveal_strlit("Czekam na następne połączenie.");
    lemma_plain("Czekam na następne połączenie."@);
    reveal_strlit("Waiting for the next connection.");
    lemma_plain("Waiting for the next connection."@);
    reveal_strlit("Warte auf die nächste Verbindung.");
    lemma_plain("Warte auf die nächste Verbindung."@);
    reveal_strlit("Esperando la siguiente conexión.");
    lemma_plain("Esperando la siguiente conexión."@);
    reveal_strlit("En attente de la prochaine connexion.");
    lemma_plain("En attente de la prochaine connexion."@);
    reveal_strlit("In attesa della prossima connessione.");
    lemma_plain("In attesa della prossima connessione."@);
    reveal_strlit("Чекаю на наступне з'єднання.");
    lemma_plain("Чекаю на наступне з'єднання."@);
}

proof fn row_show_window()
    ensures
        agree(crate::i18n::catalog::SHOW_WINDOW, 0),
{
    reveal_strlit("Pokaż okno");
    lemma_plain("Pokaż okno"@);
    reveal_strlit("Show window");
    lemma_plain("Show window"@);
    reveal_strlit("Fenster zeigen");
    lemma_plain("Fenster zeigen"@);
    reveal_strlit("Mostrar ventana");
    lemma_plain("Mostrar ventana"@);
    reveal_strlit("Afficher la fenêtre");
    lemma_plain("Afficher la fenêtre"@);
    reveal_strlit("Mostra finestra");
    lemma_plain("Mostra finestra"@);
    reveal_strlit("Показати вікно");
    lemma_plain("Показати вікно"@);
}

proof fn row_vn_address()
    ensures
        agree(crate::i18n::catalog::VN_ADDRESS, 0),
{
    reveal_strlit("ADRES");
    lemma_plain("ADRES"@);
    reveal_strlit("ADDRESS");
    lemma_plain("ADDRESS"@);
    reveal_strlit("ADRESSE");
    lemma_plain("ADRESSE"@);
    reveal_strlit("DIRECCIÓN");
    lemma_plain("DIRECCIÓN"@);
    reveal_strlit("ADRESSE");
    lemma_plain("ADRESSE"@);
    reveal_strlit("INDIRIZZO");
    lemma_plain("INDIRIZZO"@);
    reveal_strlit("АДРЕСА");
    lemma_plain("АДРЕСА"@);
}

proof fn row_vn_device()
    ensures
        agree(crate::i18n::catalog::VN_DEVICE, 0),
{
    reveal_strlit("URZĄDZENIE");
    lemma_plain("URZĄDZENIE"@);
    reveal_strlit("DEVICE");
    lemma_plain("DEVICE"@);
    reveal_strlit("GERÄT");
    lemma_plain("GERÄT"@);
    reveal_strlit("DISPOSITIVO");
    lemma_plain("DISPOSITIVO"@);
    reveal_strlit("PÉRIPHÉRIQUE");
    lemma_plain("PÉRIPHÉRIQUE"@);
    reveal_strlit("DISPOSITIVO");
    lemma_plain("DISPOSITIVO"@);
    reveal_strlit("ПРИСТРІЙ");
    lemma_plain("ПРИСТРІЙ"@);
}

proof fn row_vn_digits()
    ensures
        agree(crate::i18n::catalog::VN_DIGITS, 0),
{
    reveal_strlit("CYFRY");
    lemma_plain("CYFRY"@);
    reveal_strlit("DIGITS");
    lemma_plain("DIGITS"@);
    reveal_strlit("ZIFFERN");
    lemma_plain("ZIFFERN"@);
    reveal_strlit("CIFRAS");
    lemma_plain("CIFRAS"@);
    reveal_strlit("CHIFFRES");
    lemma_plain("CHIFFRES"@);
    reveal_strlit("CIFRE");
    lemma_plain("CIFRE"@);
    reveal_strlit("ЦИФРИ");
    lemma_plain("ЦИФРИ"@);
}

proof fn row_vn_name()
    ensures
        agree(crate::i18n::catalog::VN_NAME, 0),
{
    reveal_strlit("NAZWA");
    lemma_plain("NAZWA"@);
    reveal_strlit("NAME");
    lemma_plain("NAME"@);
    reveal_strlit("NAME");
    lemma_plain("NAME"@);
    reveal_strlit("NOMBRE");
    lemma_plain("NOMBRE"@);
    reveal_strlit("NOM");
    lemma_plain("NOM"@);
    reveal_strlit("NOME");
    lemma_plain("NOME"@);
    reveal_strlit("НАЗВА");
    lemma_plain("НАЗВА"@);
}

proof fn row_vn_sink()
    ensures
        agree(crate::i18n::catalog::VN_SINK, 0),
{
    reveal_strlit("UJŚCIE");
    lemma_plain("UJŚCIE"@);
    reveal_strlit("SINK");
    lemma_plain("SINK"@);
    reveal_strlit("ZIEL");
    lemma_plain("ZIEL"@);
    reveal_strlit("DESTINO");
    lemma_plain("DESTINO"@);
    reveal_strlit("SORTIE");
    lemma_plain("SORTIE"@);
    reveal_strlit("USCITA");
    lemma_plain("USCITA"@);
    reveal_strlit("ВИХІД");
    lemma_plain("ВИХІД"@);
}

/// How many places to fill the texts of a key have.
pub open spec fn places(key: Key) -> nat {
    holes_from(crate::i18n::catalog::text_of(key, Lang::Pl), 0)
}

proof fn rows_agree(key: Key)
    ensures
        agree(crate::i18n::catalog::row_of(key), places(key)),
{
    match key {
        Key::CliAbout => row_cli_about(),
        Key::CliCtrlC => row_cli_ctrl_c(),
        Key::CliDefaultMark => row_cli_default_mark(),
        Key::CliForgetHint => row_cli_forget_hint(),
        Key::CliForgetOther => row_cli_forget_other(),
        Key::CliForgotten => row_cli_forgotten(),
        Key::CliHintMulticast => row_cli_hint_multicast(),
        Key::CliHintRecv => row_cli_hint_recv(),
        Key::CliHintSameNet => row_cli_hint_same_net(),
        Key::CliHintUseTo => row_cli_hint_use_to(),
        Key::CliInputs => row_cli_inputs(),
        Key::CliKeysAt => row_cli_keys_at(),
        Key::CliNoMic => row_cli_no_mic(),
        Key::CliNone => row_cli_none(),
        Key::CliNothingPaired => row_cli_nothing_paired(),
        Key::CliNothingSeen => row_cli_nothing_seen(),
        Key::CliNothingUnder => row_cli_nothing_under(),
        Key::CliOutputs => row_cli_outputs(),
        Key::CliPairedHeading => row_cli_paired_heading(),
        Key::CliPairingIsAutomatic => row_cli_pairing_is_automatic(),
        Key::CliPointing => row_cli_pointing(),
        Key::CliProtocolInstead => row_cli_protocol_instead(),
        Key::CliReceivers => row_cli_receivers(),
        Key::CliSearching => row_cli_searching(),
        Key::CliSendWith => row_cli_send_with(),
        Key::CliSinkLinux => row_cli_sink_linux(),
        Key::CliSinkLinuxNote => row_cli_sink_linux_note(),
        Key::CliSinkWindows => row_cli_sink_windows(),
        Key::CliSinkWindowsNote => row_cli_sink_windows_note(),
        Key::CliVirtualCable => row_cli_virtual_cable(),
        Key::DevicesFew => row_devices_few(),
        Key::DevicesMany => row_devices_many(),
        Key::DevicesOne => row_devices_one(),
        Key::DocAllGood => row_doc_all_good(),
        Key::DocBroken => row_doc_broken(),
        Key::DocPartial => row_doc_partial(),
        Key::DocTitle => row_doc_title(),
        Key::ErrCannotBind => row_err_cannot_bind(),
        Key::ErrCodeMismatch => row_err_code_mismatch(),
        Key::ErrCtrlC => row_err_ctrl_c(),
        Key::ErrDirIn => row_err_dir_in(),
        Key::ErrDirOut => row_err_dir_out(),
        Key::ErrInternal => row_err_internal(),
        Key::ErrMdnsAnnounce => row_err_mdns_announce(),
        Key::ErrMdnsBrowse => row_err_mdns_browse(),
        Key::ErrMdnsStart => row_err_mdns_start(),
        Key::ErrNoConfigDir => row_err_no_config_dir(),
        Key::ErrNoDefault => row_err_no_default(),
        Key::ErrNoDeviceIdx => row_err_no_device_idx(),
        Key::ErrNoFormat => row_err_no_format(),
        Key::ErrNobodyTypedCode => row_err_nobody_typed_code(),
        Key::ErrPairingCancelled => row_err_pairing_cancelled(),
        Key::ErrPeerAbortedPairing => row_err_peer_aborted_pairing(),
        Key::FramesN => row_frames_n(),
        Key::HelpBitrate => row_help_bitrate(),
        Key::HelpBufferMs => row_help_buffer_ms(),
        Key::HelpCode => row_help_code(),
        Key::HelpDevice => row_help_device(),
        Key::HelpDevices => row_help_devices(),
        Key::HelpDiscover => row_help_discover(),
        Key::HelpDoctor => row_help_doctor(),
        Key::HelpDropPct => row_help_drop_pct(),
        Key::HelpFixedBuffer => row_help_fixed_buffer(),
        Key::HelpForget => row_help_forget(),
        Key::HelpForgetPeer => row_help_forget_peer(),
        Key::HelpGain => row_help_gain(),
        Key::HelpListen => row_help_listen(),
        Key::HelpNoAnnounce => row_help_no_announce(),
        Key::HelpPeers => row_help_peers(),
        Key::HelpRecv => row_help_recv(),
        Key::HelpSend => row_help_send(),
        Key::HelpSink => row_help_sink(),
        Key::HelpTo => row_help_to(),
        Key::HelpVerbose => row_help_verbose(),
        Key::HelpWindowMs => row_help_window_ms(),
        Key::LatencyLoss => row_latency_loss(),
        Key::NobodyListening => row_nobody_listening(),
        Key::NumBitrate => row_num_bitrate(),
        Key::NumCard => row_num_card(),
        Key::NumCushion => row_num_cushion(),
        Key::NumDrift => row_num_drift(),
        Key::NumDropped => row_num_dropped(),
        Key::NumFec => row_num_fec(),
        Key::NumFecFor => row_num_fec_for(),
        Key::NumFrames => row_num_frames(),
        Key::NumJitter => row_num_jitter(),
        Key::NumLost => row_num_lost(),
        Key::NumPeak => row_num_peak(),
        Key::NumStarved => row_num_starved(),
        Key::PctLoss => row_pct_loss(),
        Key::Quit => row_quit(),
        Key::SamplesN => row_samples_n(),
        Key::SesCannotAnnounce => row_ses_cannot_announce(),
        Key::SesConversion => row_ses_conversion(),
        Key::SesEnded => row_ses_ended(),
        Key::SesListening => row_ses_listening(),
        Key::SesPickMicDevice => row_ses_pick_mic_device(),
        Key::SesPickMicNamed => row_ses_pick_mic_named(),
        Key::SesSource => row_ses_source(),
        Key::SesVisibleAs => row_ses_visible_as(),
        Key::SesWaitNext => row_ses_wait_next(),
        Key::ShowWindow => row_show_window(),
        Key::VnAddress => row_vn_address(),
        Key::VnDevice => row_vn_device(),
        Key::VnDigits => row_vn_digits(),
        Key::VnName => row_vn_name(),
        Key::VnSink => row_vn_sink(),
    }
    assert(says_with(crate::i18n::catalog::row_of(key)@[0]@, places(key)));
}

/// Every key has a text in every language.
pub proof fn every_key_has_every_translation(key: Key, lang: Lang)
    ensures
        crate::i18n::catalog::text_of(key, lang).len() > 0,
{
    rows_agree(key);
    assert(says_with(crate::i18n::catalog::row_of(key)@[lang.place()]@, places(key)));
}

/// A text has as many places to fill in one language as in another: a number
/// lands in its sentence, whichever it is.
pub proof fn holes_match_across_languages(key: Key, lang: Lang, other: Lang)
    ensures
        holes_from(crate::i18n::catalog::text_of(key, lang), 0) == holes_from(
            crate::i18n::catalog::text_of(key, other),
            0,
        ),
{
    rows_agree(key);
    assert(says_with(crate::i18n::catalog::row_of(key)@[lang.place()]@, places(key)));
    assert(says_with(crate::i18n::catalog::row_of(key)@[other.place()]@, places(key)));
}

} // verus!
