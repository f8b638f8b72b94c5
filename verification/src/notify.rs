//! The completion notice: the dialog that a finished night run shows before
//! Windows sleeps or shuts down, and how its answer is read.
use crate::backend::CompletionAction;
use crate::language::Language;
use crate::quota::lang;
use crate::text::{contains_seq, dec, lemma_contains_middle, push_dec, push_str};
use vstd::prelude::*;

verus! {

/// The answer to the completion notice.
#[derive(Debug, Clone, Copy, PartialEq, Eq, Structural)]
pub enum NoticeAction {
    Confirm,
    Cancel,
}

/// The value of windows-sys's `IDOK` (1 in its source): the dialog's OK
/// button was pressed.
#[verifier::external_body]
fn id_ok() -> (r: i32)
    ensures
        r == 1i32,
{
    windows_sys::Win32::UI::WindowsAndMessaging::IDOK
}

/// Only an explicit OK confirms; Cancel, closing the dialog or a failed
/// dialog (0) cancel.
pub fn notice_action_from_result(result: i32) -> (r: NoticeAction)
    ensures
        r == (if result == 1 {
            NoticeAction::Confirm
        } else {
            NoticeAction::Cancel
        }),
{
    if result == id_ok() {
        NoticeAction::Confirm
    } else {
        NoticeAction::Cancel
    }
}

/// The sentence that announces the power action.
pub open spec fn action_sentence(
    language: Language,
    warning_seconds: u64,
    action: CompletionAction,
) -> Seq<char> {
    match action {
        CompletionAction::Sleep => lang(
            language,
            "Windows wechselt in etwa"@,
            "Windows will enter sleep in about"@,
        ) + " "@ + dec(warning_seconds as nat) + " "@ + lang(
            language,
            "Sekunden in den Energiesparmodus"@,
            "seconds"@,
        ) + "."@,
        CompletionAction::Shutdown => lang(
            language,
            "Windows fährt in etwa"@,
            "Windows will shut down in about"@,
        ) + " "@ + dec(warning_seconds as nat) + " "@ + lang(
            language,
            "Sekunden herunter"@,
            "seconds"@,
        ) + "."@,
    }
}

/// How to prevent the power action.
pub open spec fn abort_sentence(language: Language, action: CompletionAction) -> Seq<char> {
    match action {
        CompletionAction::Sleep => lang(
            language,
            "Klicke auf Abbrechen, um den Energiesparmodus zu verhindern."@,
            "Click Cancel to prevent sleep."@,
        ),
        CompletionAction::Shutdown => lang(
            language,
            "Klicke auf Abbrechen, um den Shutdown zu verhindern."@,
            "Click Cancel to prevent shutdown."@,
        ),
    }
}

/// Title and text of the completion notice.
pub open spec fn notice_texts(
    language: Language,
    demo: bool,
    warning_seconds: u64,
    action: CompletionAction,
    network_triggered: bool,
) -> (Seq<char>, Seq<char>) {
    if demo {
        (
            lang(language, "Herdr-Nachtwächter - Demo"@, "Herdr Night Watch - Demo"@),
            lang(
                language,
                "Alle simulierten Agenten sind fertig."@,
                "All simulated agents are finished."@,
            ) + "\n\n"@ + lang(
                language,
                "In einem echten Nachtlauf würde Windows jetzt in etwa"@,
                "In a real night run, Windows would shut down in about"@,
            ) + " "@ + dec(warning_seconds as nat) + " "@ + lang(
                language,
                "Sekunden herunterfahren. Diese Demo fährt Windows nicht herunter"@,
                "seconds. This demo does not shut down Windows"@,
            ) + "."@,
        )
    } else {
        (
            lang(language, "Herdr-Nachtwächter"@, "Herdr Night Watch"@),
            (if network_triggered {
                lang(
                    language,
                    "Seit fünf Minuten besteht keine Internetverbindung.\n\n"@,
                    "There has been no internet connection for five minutes.\n\n"@,
                )
            } else {
                Seq::empty()
            }) + lang(
                language,
                "Alle überwachten Herdr-Agenten sind fertig oder können ohne Internet nicht weiterarbeiten."@,
                "All monitored Herdr agents are finished or cannot continue without internet."@,
            ) + "\n\n"@ + action_sentence(language, warning_seconds, action) + "\n\n"@ + lang(
                language,
                "Klicke auf OK, um die Aktion sofort auszuführen."@,
                "Click OK to execute the action immediately."@,
            ) + "\n"@ + abort_sentence(language, action),
        )
    }
}

/// A real completion notice announces the power action that will follow:
/// its text names the chosen action (sleep or shutdown) together with the
/// warning seconds, and tells how to prevent that same action.
pub proof fn lemma_notice_announces_the_action(
    language: Language,
    warning_seconds: u64,
    action: CompletionAction,
    network_triggered: bool,
)
    ensures
        contains_seq(
            notice_texts(language, false, warning_seconds, action, network_triggered).1,
            (match action {
                CompletionAction::Sleep => lang(
                    language,
                    "Windows wechselt in etwa"@,
                    "Windows will enter sleep in about"@,
                ),
                CompletionAction::Shutdown => lang(
                    language,
                    "Windows fährt in etwa"@,
                    "Windows will shut down in about"@,
                ),
            }) + " "@ + dec(warning_seconds as nat),
        ),
        contains_seq(
            notice_texts(language, false, warning_seconds, action, network_triggered).1,
            match action {
                CompletionAction::Sleep => lang(
                    language,
                    "Klicke auf Abbrechen, um den Energiesparmodus zu verhindern."@,
                    "Click Cancel to prevent sleep."@,
                ),
                CompletionAction::Shutdown => lang(
                    language,
                    "Klicke auf Abbrechen, um den Shutdown zu verhindern."@,
                    "Click Cancel to prevent shutdown."@,
                ),
            },
        ),
{
    let announcement = match action {
        CompletionAction::Sleep => lang(
            language,
            "Windows wechselt in etwa"@,
            "Windows will enter sleep in about"@,
        ),
        CompletionAction::Shutdown => lang(
            language,
            "Windows fährt in etwa"@,
            "Windows will shut down in about"@,
        ),
    };
    let unit = match action {
        CompletionAction::Sleep => lang(language, "Sekunden in den Energiesparmodus"@, "seconds"@),
        CompletionAction::Shutdown => lang(language, "Sekunden herunter"@, "seconds"@),
    };
    let head = (if network_triggered {
        lang(
            language,
            "Seit fünf Minuten besteht keine Internetverbindung.\n\n"@,
            "There has been no internet connection for five minutes.\n\n"@,
        )
    } else {
        Seq::empty()
    }) + lang(
        language,
        "Alle überwachten Herdr-Agenten sind fertig oder können ohne Internet nicht weiterarbeiten."@,
        "All monitored Herdr agents are finished or cannot continue without internet."@,
    ) + "\n\n"@;
    let ok = "\n\n"@ + lang(
        language,
        "Klicke auf OK, um die Aktion sofort auszuführen."@,
        "Click OK to execute the action immediately."@,
    ) + "\n"@;
    let said = announcement + " "@ + dec(warning_seconds as nat);
    let abort = abort_sentence(language, action);
    let text = notice_texts(language, false, warning_seconds, action, network_triggered).1;
    assert(action_sentence(language, warning_seconds, action) =~= said + " "@ + unit + "."@);
    assert(text =~= head + said + (" "@ + unit + "."@ + ok + abort));
    lemma_contains_middle(head, said, " "@ + unit + "."@ + ok + abort);
    assert(text =~= (head + said + " "@ + unit + "."@ + ok) + abort + Seq::<char>::empty());
    lemma_contains_middle(head + said + " "@ + unit + "."@ + ok, abort, Seq::<char>::empty());
}

/// Title and text of the completion notice.
pub fn completion_notice_text(
    language: Language,
    demo: bool,
    warning_seconds: u64,
    completion_action: CompletionAction,
    network_triggered: bool,
) -> (r: (String, String))
    ensures
        r.0@ == notice_texts(language, demo, warning_seconds, completion_action, network_triggered).0,
        r.1@ == notice_texts(language, demo, warning_seconds, completion_action, network_triggered).1,
{
    let mut title = String::new();
    let mut text = String::new();
    if demo {
        push_str(&mut title, language.text("Herdr-Nachtwächter - Demo", "Herdr Night Watch - Demo"));
        push_str(
            &mut text,
            language.text("Alle simulierten Agenten sind fertig.", "All simulated agents are finished."),
        );
        push_str(&mut text, "\n\n");
        push_str(
            &mut text,
            language.text(
                "In einem echten Nachtlauf würde Windows jetzt in etwa",
                "In a real night run, Windows would shut down in about",
            ),
        );
        push_str(&mut text, " ");
        push_dec(&mut text, warning_seconds);
        push_str(&mut text, " ");
        push_str(
            &mut text,
            language.text(
                "Sekunden herunterfahren. Diese Demo fährt Windows nicht herunter",
                "seconds. This demo does not shut down Windows",
            ),
        );
        push_str(&mut text, ".");
        return (title, text);
    }
    push_str(&mut title, language.text("Herdr-Nachtwächter", "Herdr Night Watch"));
    if network_triggered {
        push_str(
            &mut text,
            language.text(
                "Seit fünf Minuten besteht keine Internetverbindung.\n\n",
                "There has been no internet connection for five minutes.\n\n",
            ),
        );
    }
    push_str(
        &mut text,
        language.text(
            "Alle überwachten Herdr-Agenten sind fertig oder können ohne Internet nicht weiterarbeiten.",
            "All monitored Herdr agents are finished or cannot continue without internet.",
        ),
    );
    push_str(&mut text, "\n\n");
    match completion_action {
        CompletionAction::Sleep => {
            push_str(
                &mut text,
                language.text("Windows wechselt in etwa", "Windows will enter sleep in about"),
            );
            push_str(&mut text, " ");
            push_dec(&mut text, warning_seconds);
            push_str(&mut text, " ");
            push_str(&mut text, language.text("Sekunden in den Energiesparmodus", "seconds"));
            push_str(&mut text, ".");
        },
        CompletionAction::Shutdown => {
            push_str(
                &mut text,
                language.text("Windows fährt in etwa", "Windows will shut down in about"),
            );
            push_str(&mut text, " ");
            push_dec(&mut text, warning_seconds);
            push_str(&mut text, " ");
            push_str(&mut text, language.text("Sekunden herunter", "seconds"));
            push_str(&mut text, ".");
        },
    }
    push_str(&mut text, "\n\n");
    push_str(
        &mut text,
        language.text(
            "Klicke auf OK, um die Aktion sofort auszuführen.",
            "Click OK to execute the action immediately.",
        ),
    );
    push_str(&mut text, "\n");
    match completion_action {
        CompletionAction::Sleep => push_str(
            &mut text,
            language.text(
                "Klicke auf Abbrechen, um den Energiesparmodus zu verhindern.",
                "Click Cancel to prevent sleep.",
            ),
        ),
        CompletionAction::Shutdown => push_str(
            &mut text,
            language.text(
                "Klicke auf Abbrechen, um den Shutdown zu verhindern.",
                "Click Cancel to prevent shutdown.",
            ),
        ),
    }
    (title, text)
}

} // verus!
