use voicedesk::classify::{
    classify_status, finish_auth_failure, finish_other, finish_rate_limited, finish_success,
    StatusClass,
};
use voicedesk::credential::{CredentialError, MemoryStore};
use voicedesk::synth::{GenerateTtsRequest, SynthStep, VoiceSettings};
use voicedesk::synth::{build_plan, synthesize_start, synthesize_with_credential};
use voicedesk::transport::{classify_transport_error, transport_failure, TransportError};

fn request(text: &str) -> GenerateTtsRequest {
    GenerateTtsRequest {
        text: text.to_string(),
        language: "fr".to_string(),
        voice_settings: VoiceSettings {
            stability: "0.5".to_string(),
            similarity_boost: "0.75".to_string(),
            style: "0".to_string(),
        },
    }
}

fn done_error(step: SynthStep) -> String {
    match step {
        SynthStep::Done(env) => {
            assert!(!env.success);
            assert!(env.data.is_none());
            env.error.expect("failure envelope must carry a message")
        }
        _ => panic!("expected the call to end with an envelope"),
    }
}

#[test]
fn empty_text_fails_before_any_network_step() {
    let step = synthesize_start(&request(""));
    assert_eq!(done_error(step), "Le texte ne peut pas être vide");
}

#[test]
fn whitespace_only_text_fails_before_any_network_step() {
    let step = synthesize_start(&request(" \t\r\n \u{00A0}\u{2003}"));
    assert_eq!(done_error(step), "Le texte ne peut pas être vide");
}

#[test]
fn overlong_text_fails_with_length_message() {
    let step = synthesize_start(&request(&"a".repeat(5001)));
    assert_eq!(
        done_error(step),
        "Le texte dépasse la longueur maximale de 5000 caractères"
    );
}

#[test]
fn overlong_text_is_counted_in_characters_not_bytes() {
    let step = synthesize_start(&request(&"é".repeat(5001)));
    assert_eq!(
        done_error(step),
        "Le texte dépasse la longueur maximale de 5000 caractères"
    );
}

#[test]
fn text_at_the_bound_proceeds_to_the_credential() {
    let step = synthesize_start(&request(&"é".repeat(5000)));
    assert!(matches!(step, SynthStep::NeedCredential));
}

#[test]
fn valid_text_proceeds_to_the_credential() {
    let step = synthesize_start(&request("Bonjour tout le monde"));
    assert!(matches!(step, SynthStep::NeedCredential));
}

#[test]
fn missing_credential_fails_before_sending() {
    let store = MemoryStore::new();
    let step = synthesize_with_credential(&request("Bonjour"), store.get());
    assert_eq!(
        done_error(step),
        "Clé API introuvable. Veuillez la configurer dans Paramètres."
    );
}

#[test]
fn unavailable_store_fails_with_its_detail() {
    let lookup = Err(CredentialError::Unavailable("no keychain".to_string()));
    let step = synthesize_with_credential(&request("Bonjour"), lookup);
    assert_eq!(done_error(step), "Erreur trousseau : no keychain");
}

#[test]
fn credential_in_hand_yields_the_prepared_request() {
    let step = synthesize_with_credential(&request("Bonjour"), Ok("sk-test".to_string()));
    match step {
        SynthStep::Send(plan) => {
            assert_eq!(
                plan.url,
                "https://api.elevenlabs.io/v1/text-to-speech/podfxsRIe2hbXsMfBAMz"
            );
            assert_eq!(plan.api_key, "sk-test");
            assert_eq!(plan.content_type, "application/json");
        }
        _ => panic!("expected a request to send"),
    }
}

#[test]
fn plan_body_is_the_exact_json_document() {
    let plan = build_plan(&request("Bonjour"), "sk-test".to_string());
    assert_eq!(
        plan.body,
        "{\"text\":\"Bonjour\",\"model_id\":\"eleven_multilingual_v2\",\
         \"output_format\":\"mp3_44100_128\",\"voice_settings\":{\"stability\":0.5,\
         \"similarity_boost\":0.75,\"style\":0}}"
    );
}

#[test]
fn plan_body_escapes_the_passage() {
    let plan = build_plan(&request("He said \"hi\"\\\n\u{1}"), "k".to_string());
    assert_eq!(
        plan.body,
        "{\"text\":\"He said \\\"hi\\\"\\\\\\n\\u0001\",\"model_id\":\"eleven_multilingual_v2\",\
         \"output_format\":\"mp3_44100_128\",\"voice_settings\":{\"stability\":0.5,\
         \"similarity_boost\":0.75,\"style\":0}}"
    );
}

#[test]
fn status_classification_is_total() {
    assert!(matches!(classify_status(200), StatusClass::Success));
    assert!(matches!(classify_status(204), StatusClass::Success));
    assert!(matches!(classify_status(299), StatusClass::Success));
    assert!(matches!(classify_status(401), StatusClass::AuthFailure));
    assert!(matches!(classify_status(429), StatusClass::RateLimited));
    assert!(matches!(classify_status(199), StatusClass::OtherFailure));
    assert!(matches!(classify_status(300), StatusClass::OtherFailure));
    assert!(matches!(classify_status(400), StatusClass::OtherFailure));
    assert!(matches!(classify_status(404), StatusClass::OtherFailure));
    assert!(matches!(classify_status(500), StatusClass::OtherFailure));
}

#[test]
fn unauthorized_yields_the_authentication_message() {
    assert!(matches!(classify_status(401), StatusClass::AuthFailure));
    let env = finish_auth_failure();
    assert!(!env.success);
    assert_eq!(
        env.error.as_deref(),
        Some("Clé API invalide. Veuillez vérifier votre clé API ElevenLabs dans Paramètres.")
    );
}

#[test]
fn rate_limited_yields_the_rate_limit_message() {
    assert!(matches!(classify_status(429), StatusClass::RateLimited));
    let env = finish_rate_limited();
    assert!(!env.success);
    assert_eq!(
        env.error.as_deref(),
        Some("Limite de débit dépassée. Veuillez réessayer plus tard ou améliorer votre forfait ElevenLabs.")
    );
}

#[test]
fn success_body_is_encoded_for_transport() {
    let env = finish_success(Ok(b"hello".to_vec()));
    assert!(env.success);
    assert_eq!(env.data.as_deref(), Some("aGVsbG8="));
    assert!(env.error.is_none());
}

#[test]
fn unreadable_success_body_is_a_read_failure() {
    let env = finish_success(Err("connection reset".to_string()));
    assert!(!env.success);
    assert_eq!(
        env.error.as_deref(),
        Some("Échec de la lecture de la réponse : connection reset")
    );
}

#[test]
fn other_status_reports_code_and_body() {
    let env = finish_other(404, Ok("voice missing".to_string()));
    assert_eq!(env.error.as_deref(), Some("Erreur API (404) : voice missing"));
}

#[test]
fn other_status_reports_code_alone_when_body_unreadable() {
    let env = finish_other(500, Err("broken pipe".to_string()));
    assert_eq!(env.error.as_deref(), Some("Erreur API : 500"));
}

#[test]
fn transport_faults_classify_with_timeout_first() {
    assert!(matches!(
        classify_transport_error(true, true, "x".to_string()),
        TransportError::Timeout
    ));
    assert!(matches!(
        classify_transport_error(false, true, "x".to_string()),
        TransportError::ConnectFailure
    ));
    match classify_transport_error(false, false, "dns failure".to_string()) {
        TransportError::Other(d) => assert_eq!(d, "dns failure"),
        _ => panic!("expected the fault text to be kept"),
    }
}

#[test]
fn transport_failures_map_to_their_messages() {
    let env = transport_failure(TransportError::Timeout);
    assert_eq!(
        env.error.as_deref(),
        Some("Délai d'attente dépassé. Veuillez vérifier votre connexion Internet.")
    );
    let env = transport_failure(TransportError::ConnectFailure);
    assert_eq!(
        env.error.as_deref(),
        Some("Échec de la connexion. Veuillez vérifier votre connexion Internet.")
    );
    let env = transport_failure(TransportError::Other("dns failure".to_string()));
    assert_eq!(env.error.as_deref(), Some("Erreur réseau : dns failure"));
}

#[test]
fn distinct_calls_do_not_interfere() {
    let first = request("premier texte");
    let second = request("");
    let step_one = synthesize_start(&first);
    let step_two = synthesize_start(&second);
    assert!(matches!(step_one, SynthStep::NeedCredential));
    assert_eq!(done_error(step_two), "Le texte ne peut pas être vide");
    let plan_one = build_plan(&first, "key-one".to_string());
    let plan_two = build_plan(&request("deuxième"), "key-two".to_string());
    assert_eq!(plan_one.api_key, "key-one");
    assert_eq!(plan_two.api_key, "key-two");
    assert!(plan_one.body.contains("premier texte"));
    assert!(plan_two.body.contains("deuxième"));
}
