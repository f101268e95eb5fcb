use crate::errors::dictionary::{
    lemma_overlay_associates, DictionaryMessage, ErrorDictionary, MessageView,
};
use crate::i18n::language::en::{english_messages, lemma_english_load_overlays, with_english_messages};
use vstd::prelude::*;

verus! {

broadcast use vstd::string::group_string_axioms;

/// `m` with the French messages of the `database` group onward written into it, in order.
pub open spec fn with_french_database_messages(m: Map<Seq<char>, MessageView>) -> Map<Seq<char>, MessageView> {
    m
        .insert(
            "database.connection_failed"@,
            MessageView {
                message: "Échec de connexion à la base de données"@,
                description: Some("Le rustmail n'a pas pu établir une connexion à la base de données"@),
                help: Some("Vérifiez la configuration de la base de données et assurez-vous que le serveur est en marche"@),
            },
        )
        .insert(
            "database.query_failed"@,
            MessageView {
                message: "Échec de la requête de base de données : {error}"@,
                description: Some("Une opération de base de données a échoué"@),
                help: None,
            },
        )
        .insert(
            "database.not_found"@,
            MessageView {
                message: "Enregistrement non trouvé dans la base de données"@,
                description: Some("Les données demandées n'ont pas pu être trouvées"@),
                help: None,
            },
        )
        .insert(
            "discord.channel_not_found"@,
            MessageView {
                message: "Canal non trouvé"@,
                description: Some("Le canal spécifié n'existe pas ou le rustmail n'y a pas accès"@),
                help: None,
            },
        )
        .insert(
            "discord.user_not_found"@,
            MessageView {
                message: "Utilisateur non trouvé"@,
                description: Some("L'utilisateur spécifié n'existe pas ou n'est pas accessible"@),
                help: None,
            },
        )
        .insert(
            "discord.permission_denied"@,
            MessageView {
                message: "Permission refusée"@,
                description: Some("Le rustmail n'a pas les permissions requises pour effectuer cette action"@),
                help: None,
            },
        )
        .insert(
            "discord.dm_creation_failed"@,
            MessageView {
                message: "Échec de création du canal DM"@,
                description: Some("Impossible de créer un canal de message privé avec l'utilisateur"@),
                help: None,
            },
        )
        .insert(
            "discord.api_error"@,
            MessageView {
                message: "Erreur de l'API Discord"@,
                description: Some("Une erreur s'est produite lors de la communication avec Discord"@),
                help: None,
            },
        )
        .insert(
            "discord.user_is_a_bot"@,
            MessageView {
                message: "L'utilisateur spécifié est un rustmail"@,
                description: None,
                help: None,
            },
        )
        .insert(
            "command.invalid_format"@,
            MessageView {
                message: "Format de commande invalide"@,
                description: Some("La syntaxe de la commande est incorrecte"@),
                help: Some("Utilisez `{prefix}help` pour voir le format correct de la commande"@),
            },
        )
        .insert(
            "command.missing_arguments"@,
            MessageView {
                message: "Arguments requis manquants"@,
                description: Some("Cette commande nécessite des paramètres supplémentaires"@),
                help: None,
            },
        )
        .insert(
            "command.invalid_arguments"@,
            MessageView {
                message: "Arguments invalides : {arguments}"@,
                description: Some("Un ou plusieurs arguments sont invalides"@),
                help: None,
            },
        )
        .insert(
            "command.unknown_command"@,
            MessageView {
                message: "Commande inconnue : {command}"@,
                description: Some("La commande spécifiée n'existe pas"@),
                help: Some("Utilisez `{prefix}help` pour voir les commandes disponibles"@),
            },
        )
        .insert(
            "command.unknown_slash_command"@,
            MessageView {
                message: "Slash Commande inconnue : {command}"@,
                description: None,
                help: None,
            },
        )
        .insert(
            "command.insufficient_permissions"@,
            MessageView {
                message: "Permissions insuffisantes"@,
                description: Some("Vous n'avez pas les permissions requises pour utiliser cette commande"@),
                help: None,
            },
        )
        .insert(
            "thread.not_found"@,
            MessageView {
                message: "Thread non trouvé"@,
                description: Some("Aucun thread actif trouvé pour cet utilisateur ou ce canal"@),
                help: None,
            },
        )
        .insert(
            "thread.already_exists"@,
            MessageView {
                message: "Thread existe déjà"@,
                description: Some("Vous avez déjà un thread de support actif"@),
                help: None,
            },
        )
        .insert(
            "thread.creation_failed"@,
            MessageView {
                message: "Échec de création du thread"@,
                description: Some("Une erreur s'est produite lors de la création du thread de support"@),
                help: None,
            },
        )
        .insert(
            "thread.user_still_in_server"@,
            MessageView {
                message: "L'utilisateur est toujours sur le serveur."@,
                description: Some("Utilisez la commande « close » pour fermer ce ticket."@),
                help: None,
            },
        )
        .insert(
            "thread.not_a_thread_channel"@,
            MessageView {
                message: "Ce channel n'est pas issu d'un ticket de support."@,
                description: None,
                help: None,
            },
        )
        .insert(
            "thread.modal_invalid_user_id"@,
            MessageView {
                message: "User Id invalide"@,
                description: None,
                help: None,
            },
        )
        .insert(
            "message.not_found"@,
            MessageView {
                message: "Message non trouvé"@,
                description: Some("Le message spécifié n'a pas pu être trouvé"@),
                help: None,
            },
        )
        .insert(
            "message.number_not_found"@,
            MessageView {
                message: "Message #{number} non trouvé"@,
                description: Some("Aucun message avec ce numéro n'existe"@),
                help: None,
            },
        )
        .insert(
            "message.edit_failed"@,
            MessageView {
                message: "Échec de modification du message"@,
                description: Some("Une erreur s'est produite lors de la modification du message"@),
                help: None,
            },
        )
        .insert(
            "message.send_failed"@,
            MessageView {
                message: "Échec d'envoi du message"@,
                description: Some("Une erreur s'est produite lors de l'envoi du message"@),
                help: None,
            },
        )
        .insert(
            "message.too_long"@,
            MessageView {
                message: "Message trop long"@,
                description: Some("Les messages Discord ne peuvent pas dépasser 2000 caractères"@),
                help: None,
            },
        )
        .insert(
            "message.empty"@,
            MessageView {
                message: "Le message ne peut pas être vide"@,
                description: Some("Veuillez fournir un message à envoyer"@),
                help: None,
            },
        )
        .insert(
            "validation.invalid_input"@,
            MessageView {
                message: "Entrée invalide : {input}"@,
                description: Some("L'entrée fournie n'est pas valide"@),
                help: None,
            },
        )
        .insert(
            "validation.out_of_range"@,
            MessageView {
                message: "Valeur hors limites : {range}"@,
                description: Some("La valeur doit être dans la plage spécifiée"@),
                help: None,
            },
        )
        .insert(
            "validation.required_field_missing"@,
            MessageView {
                message: "Champ requis manquant : {field}"@,
                description: Some("Ce champ est requis et ne peut pas être vide"@),
                help: None,
            },
        )
        .insert(
            "success.message_sent"@,
            MessageView {
                message: "Message envoyé avec succès ! (Message #{number})"@,
                description: Some("Votre message a été livré"@),
                help: Some("Utilisez `{prefix}edit {number}` pour modifier ce message"@),
            },
        )
        .insert(
            "success.message_edited"@,
            MessageView {
                message: "Message modifié avec succès"@,
                description: Some("Le message a été mis à jour dans le thread et en DM"@),
                help: None,
            },
        )
        .insert(
            "success.thread_created"@,
            MessageView {
                message: "Thread de support créé"@,
                description: Some("Un nouveau thread de support a été créé pour vous"@),
                help: None,
            },
        )
        .insert(
            "thread.closed"@,
            MessageView {
                message: "Merci d'avoir contacté le support ! Ton ticket est désormais clos."@,
                description: Some("Le ticket de support a été fermé et la conversation terminée."@),
                help: None,
            },
        )
        .insert(
            "thread.ask_to_close"@,
            MessageView {
                message: "Fermer"@,
                description: None,
                help: None,
            },
        )
        .insert(
            "thread.ask_to_keep_open"@,
            MessageView {
                message: "Laisser ouvert"@,
                description: None,
                help: None,
            },
        )
        .insert(
            "thread.thread_closing"@,
            MessageView {
                message: "Le ticket se fermera dans {seconds} secondes à la demande de {user}."@,
                description: None,
                help: None,
            },
        )
        .insert(
            "thread.action_in_progress"@,
            MessageView {
                message: "Une action est déjà en cours, merci de patienter."@,
                description: None,
                help: None,
            },
        )
        .insert(
            "thread.will_remain_open"@,
            MessageView {
                message: "Le thread restera ouvert."@,
                description: None,
                help: None,
            },
        )
        .insert(
            "thread.ask_create_ticket"@,
            MessageView {
                message: "Ce channel à été crée dans la catégorie des tickets de support. Voulez vous en créer un ?"@,
                description: None,
                help: None,
            },
        )
        .insert(
            "thread.modal_to_create_ticket"@,
            MessageView {
                message: "Créer un ticket"@,
                description: None,
                help: None,
            },
        )
        .insert(
            "thread.modal_bot_user"@,
            MessageView {
                message: "L'utilisateur spécifié est un rustmail, veuillez en choisir un autre."@,
                description: None,
                help: None,
            },
        )
        .insert(
            "thread.created"@,
            MessageView {
                message: "Ticket créé: {channel}"@,
                description: Some("Un nouveau ticket de support a été ouvert ou récupéré"@),
                help: None,
            },
        )
        .insert(
            "thread.unknown_action"@,
            MessageView {
                message: "Action inconnue"@,
                description: Some("L'action demandée pour le ticket est inconnue"@),
                help: None,
            },
        )
        .insert(
            "thread.modal_user_not_found"@,
            MessageView {
                message: "L'utilisateur spécifié est introuvable, veuillez en choisir un autre."@,
                description: None,
                help: None,
            },
        )
        .insert(
            "thread.category_not_found"@,
            MessageView {
                message: "La catégorie spécifiée pour les tickets n'existe pas sur le serveur."@,
                description: None,
                help: None,
            },
        )
}

fn load_french_database_messages(dict: &mut ErrorDictionary)
    ensures
        final(dict)@ == with_french_database_messages(old(dict)@),
{
    dict.messages.insert(
        "database.connection_failed".to_string(),
        DictionaryMessage::new("Échec de connexion à la base de données")
            .with_description("Le rustmail n'a pas pu établir une connexion à la base de données")
            .with_help("Vérifiez la configuration de la base de données et assurez-vous que le serveur est en marche"),
    );
    dict.messages.insert(
        "database.query_failed".to_string(),
        DictionaryMessage::new("Échec de la requête de base de données : {error}")
            .with_description("Une opération de base de données a échoué"),
    );
    dict.messages.insert(
        "database.not_found".to_string(),
        DictionaryMessage::new("Enregistrement non trouvé dans la base de données")
            .with_description("Les données demandées n'ont pas pu être trouvées"),
    );
    dict.messages.insert(
        "discord.channel_not_found".to_string(),
        DictionaryMessage::new("Canal non trouvé")
            .with_description("Le canal spécifié n'existe pas ou le rustmail n'y a pas accès"),
    );
    dict.messages.insert(
        "discord.user_not_found".to_string(),
        DictionaryMessage::new("Utilisateur non trouvé")
            .with_description("L'utilisateur spécifié n'existe pas ou n'est pas accessible"),
    );
    dict.messages.insert(
        "discord.permission_denied".to_string(),
        DictionaryMessage::new("Permission refusée")
            .with_description("Le rustmail n'a pas les permissions requises pour effectuer cette action"),
    );
    dict.messages.insert(
        "discord.dm_creation_failed".to_string(),
        DictionaryMessage::new("Échec de création du canal DM")
            .with_description("Impossible de créer un canal de message privé avec l'utilisateur"),
    );
    dict.messages.insert(
        "discord.api_error".to_string(),
        DictionaryMessage::new("Erreur de l'API Discord")
            .with_description("Une erreur s'est produite lors de la communication avec Discord"),
    );
    dict.messages.insert(
        "discord.user_is_a_bot".to_string(),
        DictionaryMessage::new("L'utilisateur spécifié est un rustmail"),
    );
    dict.messages.insert(
        "command.invalid_format".to_string(),
        DictionaryMessage::new("Format de commande invalide")
            .with_description("La syntaxe de la commande est incorrecte")
            .with_help("Utilisez `{prefix}help` pour voir le format correct de la commande"),
    );
    dict.messages.insert(
        "command.missing_arguments".to_string(),
        DictionaryMessage::new("Arguments requis manquants")
            .with_description("Cette commande nécessite des paramètres supplémentaires"),
    );
    dict.messages.insert(
        "command.invalid_arguments".to_string(),
        DictionaryMessage::new("Arguments invalides : {arguments}")
            .with_description("Un ou plusieurs arguments sont invalides"),
    );
    dict.messages.insert(
        "command.unknown_command".to_string(),
        DictionaryMessage::new("Commande inconnue : {command}")
            .with_description("La commande spécifiée n'existe pas")
            .with_help("Utilisez `{prefix}help` pour voir les commandes disponibles"),
    );
    dict.messages.insert(
        "command.unknown_slash_command".to_string(),
        DictionaryMessage::new("Slash Commande inconnue : {command}"),
    );
    dict.messages.insert(
        "command.insufficient_permissions".to_string(),
        DictionaryMessage::new("Permissions insuffisantes")
            .with_description("Vous n'avez pas les permissions requises pour utiliser cette commande"),
    );
    dict.messages.insert(
        "thread.not_found".to_string(),
        DictionaryMessage::new("Thread non trouvé")
            .with_description("Aucun thread actif trouvé pour cet utilisateur ou ce canal"),
    );
    dict.messages.insert(
        "thread.already_exists".to_string(),
        DictionaryMessage::new("Thread existe déjà")
            .with_description("Vous avez déjà un thread de support actif"),
    );
    dict.messages.insert(
        "thread.creation_failed".to_string(),
        DictionaryMessage::new("Échec de création du thread")
            .with_description("Une erreur s'est produite lors de la création du thread de support"),
    );
    dict.messages.insert(
        "thread.user_still_in_server".to_string(),
        DictionaryMessage::new("L'utilisateur est toujours sur le serveur.")
            .with_description("Utilisez la commande « close » pour fermer ce ticket."),
    );
    dict.messages.insert(
        "thread.not_a_thread_channel".to_string(),
        DictionaryMessage::new("Ce channel n'est pas issu d'un ticket de support."),
    );
    dict.messages.insert(
        "thread.modal_invalid_user_id".to_string(),
        DictionaryMessage::new("User Id invalide"),
    );
    dict.messages.insert(
        "message.not_found".to_string(),
        DictionaryMessage::new("Message non trouvé")
            .with_description("Le message spécifié n'a pas pu être trouvé"),
    );
    dict.messages.insert(
        "message.number_not_found".to_string(),
        DictionaryMessage::new("Message #{number} non trouvé")
            .with_description("Aucun message avec ce numéro n'existe"),
    );
    dict.messages.insert(
        "message.edit_failed".to_string(),
        DictionaryMessage::new("Échec de modification du message")
            .with_description("Une erreur s'est produite lors de la modification du message"),
    );
    dict.messages.insert(
        "message.send_failed".to_string(),
        DictionaryMessage::new("Échec d'envoi du message")
            .with_description("Une erreur s'est produite lors de l'envoi du message"),
    );
    dict.messages.insert(
        "message.too_long".to_string(),
        DictionaryMessage::new("Message trop long")
            .with_description("Les messages Discord ne peuvent pas dépasser 2000 caractères"),
    );
    dict.messages.insert(
        "message.empty".to_string(),
        DictionaryMessage::new("Le message ne peut pas être vide")
            .with_description("Veuillez fournir un message à envoyer"),
    );
    dict.messages.insert(
        "validation.invalid_input".to_string(),
        DictionaryMessage::new("Entrée invalide : {input}")
            .with_description("L'entrée fournie n'est pas valide"),
    );
    dict.messages.insert(
        "validation.out_of_range".to_string(),
        DictionaryMessage::new("Valeur hors limites : {range}")
            .with_description("La valeur doit être dans la plage spécifiée"),
    );
    dict.messages.insert(
        "validation.required_field_missing".to_string(),
        DictionaryMessage::new("Champ requis manquant : {field}")
            .with_description("Ce champ est requis et ne peut pas être vide"),
    );
    dict.messages.insert(
        "success.message_sent".to_string(),
        DictionaryMessage::new("Message envoyé avec succès ! (Message #{number})")
            .with_description("Votre message a été livré")
            .with_help("Utilisez `{prefix}edit {number}` pour modifier ce message"),
    );
    dict.messages.insert(
        "success.message_edited".to_string(),
        DictionaryMessage::new("Message modifié avec succès")
            .with_description("Le message a été mis à jour dans le thread et en DM"),
    );
    dict.messages.insert(
        "success.thread_created".to_string(),
        DictionaryMessage::new("Thread de support créé")
            .with_description("Un nouveau thread de support a été créé pour vous"),
    );
    dict.messages.insert(
        "thread.closed".to_string(),
        DictionaryMessage::new("Merci d'avoir contacté le support ! Ton ticket est désormais clos.")
            .with_description("Le ticket de support a été fermé et la conversation terminée."),
    );
    dict.messages.insert(
        "thread.ask_to_close".to_string(),
        DictionaryMessage::new("Fermer"),
    );
    dict.messages.insert(
        "thread.ask_to_keep_open".to_string(),
        DictionaryMessage::new("Laisser ouvert"),
    );
    dict.messages.insert(
        "thread.thread_closing".to_string(),
        DictionaryMessage::new("Le ticket se fermera dans {seconds} secondes à la demande de {user}."),
    );
    dict.messages.insert(
        "thread.action_in_progress".to_string(),
        DictionaryMessage::new("Une action est déjà en cours, merci de patienter."),
    );
    dict.messages.insert(
        "thread.will_remain_open".to_string(),
        DictionaryMessage::new("Le thread restera ouvert."),
    );
    dict.messages.insert(
        "thread.ask_create_ticket".to_string(),
        DictionaryMessage::new("Ce channel à été crée dans la catégorie des tickets de support. Voulez vous en créer un ?"),
    );
    dict.messages.insert(
        "thread.modal_to_create_ticket".to_string(),
        DictionaryMessage::new("Créer un ticket"),
    );
    dict.messages.insert(
        "thread.modal_bot_user".to_string(),
        DictionaryMessage::new("L'utilisateur spécifié est un rustmail, veuillez en choisir un autre."),
    );
    dict.messages.insert(
        "thread.created".to_string(),
        DictionaryMessage::new("Ticket créé: {channel}")
            .with_description("Un nouveau ticket de support a été ouvert ou récupéré"),
    );
    dict.messages.insert(
        "thread.unknown_action".to_string(),
        DictionaryMessage::new("Action inconnue")
            .with_description("L'action demandée pour le ticket est inconnue"),
    );
    dict.messages.insert(
        "thread.modal_user_not_found".to_string(),
        DictionaryMessage::new("L'utilisateur spécifié est introuvable, veuillez en choisir un autre."),
    );
    dict.messages.insert(
        "thread.category_not_found".to_string(),
        DictionaryMessage::new("La catégorie spécifiée pour les tickets n'existe pas sur le serveur."),
    );
}

/// `m` with the French messages of the `reply` group onward written into it, in order.
pub open spec fn with_french_reply_messages(m: Map<Seq<char>, MessageView>) -> Map<Seq<char>, MessageView> {
    m
        .insert(
            "reply.missing_content"@,
            MessageView {
                message: "Veuillez fournir un message à envoyer à l'utilisateur."@,
                description: Some("Vous devez fournir un message pour répondre à l'utilisateur."@),
                help: None,
            },
        )
        .insert(
            "reply.send_failed_thread"@,
            MessageView {
                message: "Échec de l'envoi du message dans le salon."@,
                description: Some("Le rustmail n'a pas pu envoyer le message dans le salon du thread."@),
                help: None,
            },
        )
        .insert(
            "reply.send_failed_dm"@,
            MessageView {
                message: "Échec de l'envoi du message en DM à l'utilisateur."@,
                description: Some("Le rustmail n'a pas pu envoyer le message en message privé à l'utilisateur."@),
                help: None,
            },
        )
        .insert(
            "edit.validation.invalid_format"@,
            MessageView {
                message: "❌ Format de commande invalide. Utilisation : `edit <numéro> <nouveau message>`"@,
                description: Some("Le format de la commande edit est invalide."@),
                help: None,
            },
        )
        .insert(
            "edit.validation.missing_number"@,
            MessageView {
                message: "❌ Format invalide. Il manque le numéro du message. Exemple : `edit 3 Nouveau message`"@,
                description: Some("Le numéro du message est manquant dans la commande edit."@),
                help: None,
            },
        )
        .insert(
            "edit.validation.missing_content"@,
            MessageView {
                message: "❌ Format invalide. Il manque le contenu. Exemple : `edit 3 Nouveau message`"@,
                description: Some("Le contenu du nouveau message est manquant dans la commande edit."@),
                help: None,
            },
        )
        .insert(
            "edit.validation.invalid_number"@,
            MessageView {
                message: "❌ Le numéro du message est invalide. Il doit être un nombre positif."@,
                description: Some("Le numéro du message doit être positif."@),
                help: None,
            },
        )
        .insert(
            "edit.validation.empty_content"@,
            MessageView {
                message: "❌ Le nouveau message ne peut pas être vide."@,
                description: Some("Le contenu du nouveau message ne peut pas être vide."@),
                help: None,
            },
        )
        .insert(
            "edit.modification_from_user"@,
            MessageView {
                message: "L'utilisateur a modifié son message.\n\nAvant:\n{before}\n\nAprès:\n{after}\n\nLien: {link}"@,
                description: None,
                help: None,
            },
        )
        .insert(
            "edit.modification_from_staff"@,
            MessageView {
                message: "Un staff a modifié son message.\n\nAvant:\n{before}\n\nAprès:\n{after}\n\nLien: {link}"@,
                description: None,
                help: None,
            },
        )
        .insert(
            "reply_numbering.confirmation"@,
            MessageView {
                message: "✅ Message envoyé ! (Message #{number}) - Utilisez `{prefix}edit {number}` pour modifier ce message."@,
                description: Some("Confirmation après l'envoi d'un message avec son numéro."@),
                help: None,
            },
        )
        .insert(
            "reply_numbering.preview"@,
            MessageView {
                message: "(Message #{number} - Utilisez `{prefix}edit {number}` pour modifier)"@,
                description: Some("Aperçu du numéro de message pour modification."@),
                help: None,
            },
        )
        .insert(
            "reply_numbering.footer"@,
            MessageView {
                message: "Message #{number} • {prefix}edit {number} pour modifier"@,
                description: Some("Footer pour les embeds avec numéro de message et commande edit."@),
                help: None,
            },
        )
        .insert(
            "reply_numbering.text_footer"@,
            MessageView {
                message: "*Message #{number} - `{prefix}edit {number}` pour modifier*"@,
                description: Some("Footer pour les messages texte avec numéro de message et commande edit."@),
                help: None,
            },
        )
        .insert(
            "edit.not_found"@,
            MessageView {
                message: "❌ Message à modifier non trouvé."@,
                description: Some("Impossible de trouver le message original à modifier. Assurez-vous que le numéro est correct et que vous êtes l'auteur du message."@),
                help: None,
            },
        )
        .insert(
            "edit.invalid_id_thread"@,
            MessageView {
                message: "❌ ID de message invalide pour le thread."@,
                description: Some("L'ID du message dans le salon est invalide ou corrompu."@),
                help: None,
            },
        )
        .insert(
            "edit.edit_failed_thread"@,
            MessageView {
                message: "❌ Échec de la modification du message dans le thread."@,
                description: Some("Le rustmail n'a pas pu modifier le message dans le salon du thread."@),
                help: None,
            },
        )
        .insert(
            "edit.invalid_id_dm"@,
            MessageView {
                message: "❌ ID de message invalide pour le DM."@,
                description: Some("L'ID du message en message privé est invalide ou corrompu."@),
                help: None,
            },
        )
        .insert(
            "edit.dm_access_failed"@,
            MessageView {
                message: "❌ Impossible d'accéder aux DMs de l'utilisateur."@,
                description: Some("Le rustmail n'a pas pu envoyer de message privé à l'utilisateur. Il a peut-être bloqué le rustmail ou désactivé ses DMs."@),
                help: None,
            },
        )
        .insert(
            "edit.edit_failed_dm"@,
            MessageView {
                message: "❌ Échec de la modification du message en DM."@,
                description: Some("Le rustmail n'a pas pu modifier le message en message privé."@),
                help: None,
            },
        )
        .insert(
            "permission.insufficient_permissions"@,
            MessageView {
                message: "Permissions insuffisantes"@,
                description: Some("Vous n'avez pas les permissions nécessaires pour cette action"@),
                help: None,
            },
        )
        .insert(
            "server.wrong_guild_single"@,
            MessageView {
                message: "Serveur incorrect"@,
                description: Some("Vous devez être dans le serveur principal pour ouvrir un ticket"@),
                help: Some("Rejoignez le serveur principal pour pouvoir contacter le support"@),
            },
        )
        .insert(
            "server.wrong_guild_dual"@,
            MessageView {
                message: "Serveur incorrect"@,
                description: Some("Vous devez être dans le serveur communautaire pour ouvrir un ticket"@),
                help: Some("Rejoignez le serveur communautaire pour pouvoir contacter le support"@),
            },
        )
        .insert(
            "server.not_in_community"@,
            MessageView {
                message: "Utilisateur non trouvé dans le serveur communautaire"@,
                description: Some("L'utilisateur doit être membre du serveur communautaire"@),
                help: None,
            },
        )
        .insert(
            "user.left_server"@,
            MessageView {
                message: "❌ **ERREUR** : Impossible d'envoyer le message car l'utilisateur **{username}** n'est plus membre du serveur communautaire."@,
                description: Some("L'utilisateur a quitté le serveur communautaire"@),
                help: None,
            },
        )
        .insert(
            "user.left_server_close"@,
            MessageView {
                message: "ℹ️ **INFORMATION** : Le ticket a été fermé. L'utilisateur **{username}** n'est plus membre du serveur communautaire, donc aucun message de fermeture ne lui a été envoyé."@,
                description: Some("Information lors de la fermeture d'un ticket d'un utilisateur qui a quitté"@),
                help: None,
            },
        )
        .insert(
            "user.left_server_notification"@,
            MessageView {
                message: "⚠️ **ALERTE** : L'utilisateur **{username}** (ID: {user_id}) a quitté le serveur.\n\nLe thread reste ouvert mais vous ne pouvez plus envoyer de messages à cet utilisateur."@,
                description: Some("Notification quand un utilisateur quitte le serveur"@),
                help: None,
            },
        )
        .insert(
            "reply.user_not_found"@,
            MessageView {
                message: "Utilisateur non trouvé"@,
                description: Some("L'utilisateur n'existe pas ou n'est pas accessible"@),
                help: None,
            },
        )
        .insert(
            "config.invalid_configuration"@,
            MessageView {
                message: "Configuration invalide"@,
                description: Some("La configuration du rustmail est incorrecte"@),
                help: None,
            },
        )
        .insert(
            "general.unknown_error"@,
            MessageView {
                message: "Erreur inconnue : {message}"@,
                description: Some("Une erreur inattendue s'est produite"@),
                help: None,
            },
        )
        .insert(
            "general.yes"@,
            MessageView {
                message: "Oui"@,
                description: None,
                help: None,
            },
        )
        .insert(
            "general.no"@,
            MessageView {
                message: "Non"@,
                description: None,
                help: None,
            },
        )
        .insert(
            "recovery.messages_recovered"@,
            MessageView {
                message: "📥 **{count} message(s) récupéré(s)** pendant la période d'indisponibilité du rustmail"@,
                description: Some("Notification de récupération de messages manqués"@),
                help: None,
            },
        )
        .insert(
            "recovery.summary"@,
            MessageView {
                message: "Récupération terminée : {total} messages récupérés dans {threads} threads ({failed} échecs)"@,
                description: Some("Résumé de la récupération des messages"@),
                help: None,
            },
        )
        .insert(
            "recovery.started"@,
            MessageView {
                message: "🔄 Début de la récupération des messages manqués..."@,
                description: Some("Notification de début de récupération"@),
                help: None,
            },
        )
        .insert(
            "recovery.completed"@,
            MessageView {
                message: "✅ Récupération des messages terminée"@,
                description: Some("Notification de fin de récupération"@),
                help: None,
            },
        )
        .insert(
            "alert.not_in_thread"@,
            MessageView {
                message: "❌ Cette commande ne peut être utilisée que dans un thread de support"@,
                description: Some("La commande alert doit être utilisée dans un canal de thread"@),
                help: None,
            },
        )
        .insert(
            "alert.alert_not_found"@,
            MessageView {
                message: "Aucune alerte définie pour ce ticket"@,
                description: None,
                help: None,
            },
        )
        .insert(
            "command.not_in_thread"@,
            MessageView {
                message: "Cette commande ne peut être utilisée que dans un thread de support"@,
                description: None,
                help: None,
            },
        )
        .insert(
            "alert.set_failed"@,
            MessageView {
                message: "❌ Vous avez déjà définie une alerte pour ce ticket !"@,
                description: None,
                help: None,
            },
        )
        .insert(
            "alert.confirmation"@,
            MessageView {
                message: "🔔 Alerte définie ! Vous serez notifié quand {user} enverra son prochain message"@,
                description: Some("Confirmation que l'alerte a été définie"@),
                help: None,
            },
        )
        .insert(
            "alert.ping_message"@,
            MessageView {
                message: "**Nouveau message reçu de {user} !**"@,
                description: Some("Ping du staff quand l'utilisateur envoie un nouveau message après la commande alert"@),
                help: None,
            },
        )
        .insert(
            "alert.cancel_failed"@,
            MessageView {
                message: "❌ Échec de l'annulation de l'alerte"@,
                description: Some("Une erreur s'est produite lors de l'annulation de l'alerte"@),
                help: None,
            },
        )
        .insert(
            "alert.cancel_confirmation"@,
            MessageView {
                message: "🔕 Alerte annulée ! Vous ne serez plus notifié quand {user} enverra un nouveau message"@,
                description: Some("Confirmation que l'alerte a été annulée"@),
                help: None,
            },
        )
}

fn load_french_reply_messages(dict: &mut ErrorDictionary)
    ensures
        final(dict)@ == with_french_reply_messages(old(dict)@),
{
    dict.messages.insert(
        "reply.missing_content".to_string(),
        DictionaryMessage::new("Veuillez fournir un message à envoyer à l'utilisateur.")
            .with_description("Vous devez fournir un message pour répondre à l'utilisateur."),
    );
    dict.messages.insert(
        "reply.send_failed_thread".to_string(),
        DictionaryMessage::new("Échec de l'envoi du message dans le salon.")
            .with_description("Le rustmail n'a pas pu envoyer le message dans le salon du thread."),
    );
    dict.messages.insert(
        "reply.send_failed_dm".to_string(),
        DictionaryMessage::new("Échec de l'envoi du message en DM à l'utilisateur.")
            .with_description("Le rustmail n'a pas pu envoyer le message en message privé à l'utilisateur."),
    );
    dict.messages.insert(
        "edit.validation.invalid_format".to_string(),
        DictionaryMessage::new("❌ Format de commande invalide. Utilisation : `edit <numéro> <nouveau message>`")
            .with_description("Le format de la commande edit est invalide."),
    );
    dict.messages.insert(
        "edit.validation.missing_number".to_string(),
        DictionaryMessage::new("❌ Format invalide. Il manque le numéro du message. Exemple : `edit 3 Nouveau message`")
            .with_description("Le numéro du message est manquant dans la commande edit."),
    );
    dict.messages.insert(
        "edit.validation.missing_content".to_string(),
        DictionaryMessage::new("❌ Format invalide. Il manque le contenu. Exemple : `edit 3 Nouveau message`")
            .with_description("Le contenu du nouveau message est manquant dans la commande edit."),
    );
    dict.messages.insert(
        "edit.validation.invalid_number".to_string(),
        DictionaryMessage::new("❌ Le numéro du message est invalide. Il doit être un nombre positif.")
            .with_description("Le numéro du message doit être positif."),
    );
    dict.messages.insert(
        "edit.validation.empty_content".to_string(),
        DictionaryMessage::new("❌ Le nouveau message ne peut pas être vide.")
            .with_description("Le contenu du nouveau message ne peut pas être vide."),
    );
    dict.messages.insert(
        "edit.modification_from_user".to_string(),
        DictionaryMessage::new("L'utilisateur a modifié son message.\n\nAvant:\n{before}\n\nAprès:\n{after}\n\nLien: {link}"),
    );
    dict.messages.insert(
        "edit.modification_from_staff".to_string(),
        DictionaryMessage::new("Un staff a modifié son message.\n\nAvant:\n{before}\n\nAprès:\n{after}\n\nLien: {link}"),
    );
    dict.messages.insert(
        "reply_numbering.confirmation".to_string(),
        DictionaryMessage::new("✅ Message envoyé ! (Message #{number}) - Utilisez `{prefix}edit {number}` pour modifier ce message.")
            .with_description("Confirmation après l'envoi d'un message avec son numéro."),
    );
    dict.messages.insert(
        "reply_numbering.preview".to_string(),
        DictionaryMessage::new("(Message #{number} - Utilisez `{prefix}edit {number}` pour modifier)")
            .with_description("Aperçu du numéro de message pour modification."),
    );
    dict.messages.insert(
        "reply_numbering.footer".to_string(),
        DictionaryMessage::new("Message #{number} • {prefix}edit {number} pour modifier")
            .with_description("Footer pour les embeds avec numéro de message et commande edit."),
    );
    dict.messages.insert(
        "reply_numbering.text_footer".to_string(),
        DictionaryMessage::new("*Message #{number} - `{prefix}edit {number}` pour modifier*")
            .with_description("Footer pour les messages texte avec numéro de message et commande edit."),
    );
    dict.messages.insert(
        "edit.not_found".to_string(),
        DictionaryMessage::new("❌ Message à modifier non trouvé.")
            .with_description("Impossible de trouver le message original à modifier. Assurez-vous que le numéro est correct et que vous êtes l'auteur du message."),
    );
    dict.messages.insert(
        "edit.invalid_id_thread".to_string(),
        DictionaryMessage::new("❌ ID de message invalide pour le thread.")
            .with_description("L'ID du message dans le salon est invalide ou corrompu."),
    );
    dict.messages.insert(
        "edit.edit_failed_thread".to_string(),
        DictionaryMessage::new("❌ Échec de la modification du message dans le thread.")
            .with_description("Le rustmail n'a pas pu modifier le message dans le salon du thread."),
    );
    dict.messages.insert(
        "edit.invalid_id_dm".to_string(),
        DictionaryMessage::new("❌ ID de message invalide pour le DM.")
            .with_description("L'ID du message en message privé est invalide ou corrompu."),
    );
    dict.messages.insert(
        "edit.dm_access_failed".to_string(),
        DictionaryMessage::new("❌ Impossible d'accéder aux DMs de l'utilisateur.")
            .with_description("Le rustmail n'a pas pu envoyer de message privé à l'utilisateur. Il a peut-être bloqué le rustmail ou désactivé ses DMs."),
    );
    dict.messages.insert(
        "edit.edit_failed_dm".to_string(),
        DictionaryMessage::new("❌ Échec de la modification du message en DM.")
            .with_description("Le rustmail n'a pas pu modifier le message en message privé."),
    );
    dict.messages.insert(
        "permission.insufficient_permissions".to_string(),
        DictionaryMessage::new("Permissions insuffisantes")
            .with_description("Vous n'avez pas les permissions nécessaires pour cette action"),
    );
    dict.messages.insert(
        "server.wrong_guild_single".to_string(),
        DictionaryMessage::new("Serveur incorrect")
            .with_description("Vous devez être dans le serveur principal pour ouvrir un ticket")
            .with_help("Rejoignez le serveur principal pour pouvoir contacter le support"),
    );
    dict.messages.insert(
        "server.wrong_guild_dual".to_string(),
        DictionaryMessage::new("Serveur incorrect")
            .with_description("Vous devez être dans le serveur communautaire pour ouvrir un ticket")
            .with_help("Rejoignez le serveur communautaire pour pouvoir contacter le support"),
    );
    dict.messages.insert(
        "server.not_in_community".to_string(),
        DictionaryMessage::new("Utilisateur non trouvé dans le serveur communautaire")
            .with_description("L'utilisateur doit être membre du serveur communautaire"),
    );
    dict.messages.insert(
        "user.left_server".to_string(),
        DictionaryMessage::new("❌ **ERREUR** : Impossible d'envoyer le message car l'utilisateur **{username}** n'est plus membre du serveur communautaire.")
            .with_description("L'utilisateur a quitté le serveur communautaire"),
    );
    dict.messages.insert(
        "user.left_server_close".to_string(),
        DictionaryMessage::new("ℹ️ **INFORMATION** : Le ticket a été fermé. L'utilisateur **{username}** n'est plus membre du serveur communautaire, donc aucun message de fermeture ne lui a été envoyé.")
            .with_description("Information lors de la fermeture d'un ticket d'un utilisateur qui a quitté"),
    );
    dict.messages.insert(
        "user.left_server_notification".to_string(),
        DictionaryMessage::new("⚠️ **ALERTE** : L'utilisateur **{username}** (ID: {user_id}) a quitté le serveur.\n\nLe thread reste ouvert mais vous ne pouvez plus envoyer de messages à cet utilisateur.")
            .with_description("Notification quand un utilisateur quitte le serveur"),
    );
    dict.messages.insert(
        "reply.user_not_found".to_string(),
        DictionaryMessage::new("Utilisateur non trouvé")
            .with_description("L'utilisateur n'existe pas ou n'est pas accessible"),
    );
    dict.messages.insert(
        "config.invalid_configuration".to_string(),
        DictionaryMessage::new("Configuration invalide")
            .with_description("La configuration du rustmail est incorrecte"),
    );
    dict.messages.insert(
        "general.unknown_error".to_string(),
        DictionaryMessage::new("Erreur inconnue : {message}")
            .with_description("Une erreur inattendue s'est produite"),
    );
    dict.messages.insert(
        "general.yes".to_string(),
        DictionaryMessage::new("Oui"),
    );
    dict.messages.insert(
        "general.no".to_string(),
        DictionaryMessage::new("Non"),
    );
    dict.messages.insert(
        "recovery.messages_recovered".to_string(),
        DictionaryMessage::new("📥 **{count} message(s) récupéré(s)** pendant la période d'indisponibilité du rustmail")
            .with_description("Notification de récupération de messages manqués"),
    );
    dict.messages.insert(
        "recovery.summary".to_string(),
        DictionaryMessage::new("Récupération terminée : {total} messages récupérés dans {threads} threads ({failed} échecs)")
            .with_description("Résumé de la récupération des messages"),
    );
    dict.messages.insert(
        "recovery.started".to_string(),
        DictionaryMessage::new("🔄 Début de la récupération des messages manqués...")
            .with_description("Notification de début de récupération"),
    );
    dict.messages.insert(
        "recovery.completed".to_string(),
        DictionaryMessage::new("✅ Récupération des messages terminée")
            .with_description("Notification de fin de récupération"),
    );
    dict.messages.insert(
        "alert.not_in_thread".to_string(),
        DictionaryMessage::new("❌ Cette commande ne peut être utilisée que dans un thread de support")
            .with_description("La commande alert doit être utilisée dans un canal de thread"),
    );
    dict.messages.insert(
        "alert.alert_not_found".to_string(),
        DictionaryMessage::new("Aucune alerte définie pour ce ticket"),
    );
    dict.messages.insert(
        "command.not_in_thread".to_string(),
        DictionaryMessage::new("Cette commande ne peut être utilisée que dans un thread de support"),
    );
    dict.messages.insert(
        "alert.set_failed".to_string(),
        DictionaryMessage::new("❌ Vous avez déjà définie une alerte pour ce ticket !"),
    );
    dict.messages.insert(
        "alert.confirmation".to_string(),
        DictionaryMessage::new("🔔 Alerte définie ! Vous serez notifié quand {user} enverra son prochain message")
            .with_description("Confirmation que l'alerte a été définie"),
    );
    dict.messages.insert(
        "alert.ping_message".to_string(),
        DictionaryMessage::new("**Nouveau message reçu de {user} !**")
            .with_description("Ping du staff quand l'utilisateur envoie un nouveau message après la commande alert"),
    );
    dict.messages.insert(
        "alert.cancel_failed".to_string(),
        DictionaryMessage::new("❌ Échec de l'annulation de l'alerte")
            .with_description("Une erreur s'est produite lors de l'annulation de l'alerte"),
    );
    dict.messages.insert(
        "alert.cancel_confirmation".to_string(),
        DictionaryMessage::new("🔕 Alerte annulée ! Vous ne serez plus notifié quand {user} enverra un nouveau message")
            .with_description("Confirmation que l'alerte a été annulée"),
    );
}

/// `m` with the French messages of the `move_thread` group onward written into it, in order.
pub open spec fn with_french_move_thread_messages(m: Map<Seq<char>, MessageView>) -> Map<Seq<char>, MessageView> {
    m
        .insert(
            "move_thread.not_in_thread"@,
            MessageView {
                message: "❌ Cette commande ne peut être utilisée que dans un thread de support"@,
                description: Some("La commande move_thread doit être utilisée dans un canal de thread"@),
                help: None,
            },
        )
        .insert(
            "move_thread.missing_category"@,
            MessageView {
                message: "❌ Veuillez spécifier un nom de catégorie. Utilisation : `{prefix}move_thread <nom_catégorie>`"@,
                description: Some("Le nom de la catégorie est manquant dans la commande move_thread"@),
                help: None,
            },
        )
        .insert(
            "move_thread.failed_to_fetch_categories"@,
            MessageView {
                message: "❌ Échec de récupération des catégories du serveur"@,
                description: Some("Le rustmail n'a pas pu récupérer la liste des catégories du serveur"@),
                help: None,
            },
        )
        .insert(
            "move_thread.category_not_found"@,
            MessageView {
                message: "❌ Catégorie '{category}' non trouvée"@,
                description: Some("Aucune catégorie avec ce nom n'existe sur le serveur"@),
                help: None,
            },
        )
        .insert(
            "move_thread.failed_to_move"@,
            MessageView {
                message: "❌ Échec du déplacement du thread vers la catégorie spécifiée"@,
                description: Some("Une erreur s'est produite lors du déplacement du thread"@),
                help: None,
            },
        )
        .insert(
            "move_thread.success"@,
            MessageView {
                message: "✅ Thread déplacé vers la catégorie '{category}' par {staff}"@,
                description: Some("Le thread a été déplacé avec succès vers la nouvelle catégorie"@),
                help: None,
            },
        )
        .insert(
            "new_thread.missing_user"@,
            MessageView {
                message: "❌ Veuillez spécifier un utilisateur. Utilisation : `{prefix}new <id_utilisateur_ou_mention>`"@,
                description: Some("L'ID utilisateur ou la mention est manquant dans la commande new_thread"@),
                help: None,
            },
        )
        .insert(
            "new_thread.user_has_thread"@,
            MessageView {
                message: "❌ Cet utilisateur a déjà un thread de support actif"@,
                description: None,
                help: None,
            },
        )
        .insert(
            "new_thread.user_has_thread_with_link"@,
            MessageView {
                message: "❌ {user} a déjà un thread de support actif\n\n📎 **Lien du thread :** <#{channel_id}>"@,
                description: None,
                help: None,
            },
        )
        .insert(
            "new_thread.user_not_found"@,
            MessageView {
                message: "❌ Utilisateur non trouvé"@,
                description: Some("L'utilisateur spécifié n'existe pas ou n'est pas accessible"@),
                help: None,
            },
        )
        .insert(
            "new_thread.user_not_in_community"@,
            MessageView {
                message: "❌ L'utilisateur n'est pas membre du serveur communautaire"@,
                description: Some("L'utilisateur doit être dans le serveur communautaire pour créer un thread"@),
                help: None,
            },
        )
        .insert(
            "new_thread.user_is_a_bot"@,
            MessageView {
                message: "❌ Vous ne pouvez pas créer un ticket pour un rustmail."@,
                description: None,
                help: None,
            },
        )
        .insert(
            "new_thread.channel_creation_failed"@,
            MessageView {
                message: "❌ Échec de création du canal de thread de support"@,
                description: Some("Une erreur s'est produite lors de la création du canal de thread"@),
                help: None,
            },
        )
        .insert(
            "new_thread.database_error"@,
            MessageView {
                message: "❌ Échec de création du thread dans la base de données"@,
                description: Some("Une erreur s'est produite lors de la sauvegarde du thread dans la base de données"@),
                help: None,
            },
        )
        .insert(
            "new_thread.welcome_message"@,
            MessageView {
                message: "🎫 **Thread de support créé pour {user}**\n\nCe thread a été créé par le staff. Vous pouvez maintenant communiquer avec l'équipe de support."@,
                description: Some("Message de bienvenue dans le thread nouvellement créé"@),
                help: None,
            },
        )
        .insert(
            "new_thread.dm_notification"@,
            MessageView {
                message: "🎫 **Thread de support ouvert**\n\nUn membre du staff a initié une conversation de support avec vous. Vous pouvez maintenant communiquer avec l'équipe de support."@,
                description: Some("Notification DM envoyée à l'utilisateur quand un thread est créé"@),
                help: None,
            },
        )
        .insert(
            "new_thread.success_with_dm"@,
            MessageView {
                message: "✅ Thread de support créé pour {user} dans {channel_id} par {staff}\n\nNotification DM envoyée avec succès."@,
                description: Some("Message de succès quand le thread est créé et le DM envoyé"@),
                help: None,
            },
        )
        .insert(
            "new_thread.success_without_dm"@,
            MessageView {
                message: "✅ Thread de support créé pour {user} dans <#{channel_id}> par {staff}\n\n⚠️ Impossible d'envoyer la notification DM (l'utilisateur peut avoir désactivé les DMs)."@,
                description: Some("Message de succès quand le thread est créé mais le DM échoue"@),
                help: None,
            },
        )
        .insert(
            "delete.not_in_thread"@,
            MessageView {
                message: "❌ Cette commande ne peut être utilisée que dans un thread de support"@,
                description: Some("La commande delete doit être utilisée dans un canal de thread"@),
                help: None,
            },
        )
        .insert(
            "delete.missing_number"@,
            MessageView {
                message: "❌ Veuillez spécifier un numéro de message. Utilisation : `{prefix}delete <numéro>`"@,
                description: Some("Le numéro de message est manquant dans la commande delete"@),
                help: None,
            },
        )
        .insert(
            "delete.message_not_found"@,
            MessageView {
                message: "❌ Message #{number} non trouvé"@,
                description: Some("Aucun message avec ce numéro n'existe dans ce thread"@),
                help: None,
            },
        )
        .insert(
            "command.discord_delete_failed"@,
            MessageView {
                message: "❌ Échec de suppression du message depuis Discord"@,
                description: Some("Une erreur s'est produite lors de la suppression du message depuis Discord"@),
                help: None,
            },
        )
        .insert(
            "delete.database_delete_failed"@,
            MessageView {
                message: "❌ Échec de suppression du message depuis la base de données"@,
                description: Some("Une erreur s'est produite lors de la suppression du message depuis la base de données"@),
                help: None,
            },
        )
        .insert(
            "delete.success"@,
            MessageView {
                message: "✅ Message #{number} a été supprimé avec succès"@,
                description: Some("Confirmation que le message a été supprimé"@),
                help: None,
            },
        )
        .insert(
            "delete.removed_by_user"@,
            MessageView {
                message: "L'utilisateur {userid} a supprimé son message : \n\n{content}"@,
                description: Some("Entrée de log lorsque l'utilisateur supprime son message DM (répercuté dans le thread)"@),
                help: Some("Paramètres: content, number (optionnel si message staff)"@),
            },
        )
        .insert(
            "delete.removed_by_staff"@,
            MessageView {
                message: "Le staff {userid} a supprimé un message : \n\n{content}"@,
                description: Some("Entrée de log lorsqu'un membre du staff supprime un message dans le thread ou son miroir DM"@),
                help: Some("Paramètres: content, number (optionnel), link (optionnel)"@),
            },
        )
        .insert(
            "add_staff.add_success"@,
            MessageView {
                message: "L'utilisateur {user} a été ajouté au ticket avec succès."@,
                description: None,
                help: None,
            },
        )
        .insert(
            "add_staff.remove_success"@,
            MessageView {
                message: "L'utilisateur {user} a été retiré du ticket avec succès."@,
                description: None,
                help: None,
            },
        )
        .insert(
            "id.show_id"@,
            MessageView {
                message: "ID de {user} : {id}"@,
                description: None,
                help: None,
            },
        )
        .insert(
            "close.closure_canceled"@,
            MessageView {
                message: "Fermeture programmée annulée."@,
                description: None,
                help: None,
            },
        )
        .insert(
            "close.no_scheduled_closures_to_cancel"@,
            MessageView {
                message: "Aucune fermeture programmée à annuler."@,
                description: None,
                help: None,
            },
        )
        .insert(
            "close.closure_already_scheduled"@,
            MessageView {
                message: "Une fermeture est déjà programmée dans {seconds} secondes. Utilisez !close cancel pour l'annuler."@,
                description: None,
                help: None,
            },
        )
        .insert(
            "close.closing"@,
            MessageView {
                message: "Ce ticket sera fermé dans {time}."@,
                description: None,
                help: None,
            },
        )
        .insert(
            "close.silent_closing"@,
            MessageView {
                message: "Ce ticket sera fermé silencieusement dans {time}."@,
                description: None,
                help: None,
            },
        )
        .insert(
            "feature.not_implemented"@,
            MessageView {
                message: "Cette feature n'est pas encore implémentée."@,
                description: None,
                help: None,
            },
        )
        .insert(
            "slash_command.id_command_description"@,
            MessageView {
                message: "Afficher l'ID d'un utilisateur du thread de support"@,
                description: None,
                help: None,
            },
        )
        .insert(
            "slash_command.move_command_description"@,
            MessageView {
                message: "Déplacer le thread de support vers une autre catégorie"@,
                description: None,
                help: None,
            },
        )
        .insert(
            "slash_command.move_command_name_argument"@,
            MessageView {
                message: "La catégorie vers laquelle déplacer le thread"@,
                description: None,
                help: None,
            },
        )
        .insert(
            "slash_command.new_thread_command_description"@,
            MessageView {
                message: "Créer un nouveau thread de support pour un utilisateur"@,
                description: None,
                help: None,
            },
        )
        .insert(
            "slash_command.new_thread_user_id_argument"@,
            MessageView {
                message: "L'ID de l'utilisateur pour lequel créer le thread"@,
                description: None,
                help: None,
            },
        )
        .insert(
            "slash_command.close_command_description"@,
            MessageView {
                message: "Fermer un ticket de support"@,
                description: None,
                help: None,
            },
        )
        .insert(
            "slash_command.close_time_before_close_argument"@,
            MessageView {
                message: "Le temps avant la fermeture du ticket (ex: 1s, 1m, 1h, 1d)"@,
                description: None,
                help: None,
            },
        )
        .insert(
            "slash_command.close_silent_argument"@,
            MessageView {
                message: "Fermer le ticket silencieusement sans envoyer de message à l'utilisateur"@,
                description: None,
                help: None,
            },
        )
        .insert(
            "slash_command.close_cancel_argument"@,
            MessageView {
                message: "Annuler la fermeture programmée du ticket"@,
                description: None,
                help: None,
            },
        )
        .insert(
            "slash_command.edit_command_description"@,
            MessageView {
                message: "Editer un message envoyé dans un ticket de support"@,
                description: None,
                help: None,
            },
        )
        .insert(
            "slash_command.edit_message_id_argument"@,
            MessageView {
                message: "Le numéro du message à éditer. Vous pouvez trouver le numéro en regardant le footer du message."@,
                description: None,
                help: None,
            },
        )
        .insert(
            "slash_command.edit_message_argument"@,
            MessageView {
                message: "Le nouveau contenu du message"@,
                description: None,
                help: None,
            },
        )
        .insert(
            "slash_command.add_staff_command_description"@,
            MessageView {
                message: "Ajouter un membre du staff à un ticket de support auquel il n'a pas accès"@,
                description: None,
                help: None,
            },
        )
        .insert(
            "slash_command.add_staff_user_id_argument"@,
            MessageView {
                message: "L'ID du staff à ajouter au ticket"@,
                description: None,
                help: None,
            },
        )
        .insert(
            "slash_command.remove_staff_command_description"@,
            MessageView {
                message: "Retirer un membre du staff d'un ticket de support"@,
                description: None,
                help: None,
            },
        )
        .insert(
            "slash_command.remove_staff_user_id_argument"@,
            MessageView {
                message: "L'ID du staff à retirer du ticket"@,
                description: None,
                help: None,
            },
        )
        .insert(
            "slash_command.alert_command_description"@,
            MessageView {
                message: "Définir ou annuler une alerte pour être notifié quand l'utilisateur enverra un nouveau message"@,
                description: None,
                help: None,
            },
        )
        .insert(
            "slash_command.alert_cancel_argument"@,
            MessageView {
                message: "Annuler l'alerte"@,
                description: None,
                help: None,
            },
        )
        .insert(
            "slash_command.force_close_command_description"@,
            MessageView {
                message: "Forcer la fermeture d'un ticket de support dont l'utilisateur n'est plus membre du serveur"@,
                description: None,
                help: None,
            },
        )
        .insert(
            "slash_command.reply_command_description"@,
            MessageView {
                message: "Répondre à un utilisateur dans son ticket de support"@,
                description: None,
                help: None,
            },
        )
        .insert(
            "slash_command.reply_message_argument_description"@,
            MessageView {
                message: "Le message à envoyer à l'utilisateur"@,
                description: None,
                help: None,
            },
        )
        .insert(
            "slash_command.reply_attachment_argument_description"@,
            MessageView {
                message: "Une pièce jointe à envoyer avec le message"@,
                description: None,
                help: None,
            },
        )
        .insert(
            "slash_command.reply_anonymous_argument_description"@,
            MessageView {
                message: "Envoyer la réponse anonymement"@,
                description: None,
                help: None,
            },
        )
        .insert(
            "slash_command.delete_command_description"@,
            MessageView {
                message: "Supprimer un message envoyé dans un ticket de support"@,
                description: None,
                help: None,
            },
        )
        .insert(
            "slash_command.delete_message_id_argument_description"@,
            MessageView {
                message: "Le numéro du message à supprimer. Vous pouvez trouver le numéro en regardant le footer du message."@,
                description: None,
                help: None,
            },
        )
        .insert(
            "slash_command.recover_command_description"@,
            MessageView {
                message: "Récupérer les messages manqués pendant la période d'indisponibilité du rustmail (automatique)"@,
                description: None,
                help: None,
            },
        )
        .insert(
            "slash_command.help_command_description"@,
            MessageView {
                message: "Afficher le message d'aide"@,
                description: None,
                help: None,
            },
        )
}

fn load_french_move_thread_messages(dict: &mut ErrorDictionary)
    ensures
        final(dict)@ == with_french_move_thread_messages(old(dict)@),
{
    dict.messages.insert(
        "move_thread.not_in_thread".to_string(),
        DictionaryMessage::new("❌ Cette commande ne peut être utilisée que dans un thread de support")
            .with_description("La commande move_thread doit être utilisée dans un canal de thread"),
    );
    dict.messages.insert(
        "move_thread.missing_category".to_string(),
        DictionaryMessage::new("❌ Veuillez spécifier un nom de catégorie. Utilisation : `{prefix}move_thread <nom_catégorie>`")
            .with_description("Le nom de la catégorie est manquant dans la commande move_thread"),
    );
    dict.messages.insert(
        "move_thread.failed_to_fetch_categories".to_string(),
        DictionaryMessage::new("❌ Échec de récupération des catégories du serveur")
            .with_description("Le rustmail n'a pas pu récupérer la liste des catégories du serveur"),
    );
    dict.messages.insert(
        "move_thread.category_not_found".to_string(),
        DictionaryMessage::new("❌ Catégorie '{category}' non trouvée")
            .with_description("Aucune catégorie avec ce nom n'existe sur le serveur"),
    );
    dict.messages.insert(
        "move_thread.failed_to_move".to_string(),
        DictionaryMessage::new("❌ Échec du déplacement du thread vers la catégorie spécifiée")
            .with_description("Une erreur s'est produite lors du déplacement du thread"),
    );
    dict.messages.insert(
        "move_thread.success".to_string(),
        DictionaryMessage::new("✅ Thread déplacé vers la catégorie '{category}' par {staff}")
            .with_description("Le thread a été déplacé avec succès vers la nouvelle catégorie"),
    );
    dict.messages.insert(
        "new_thread.missing_user".to_string(),
        DictionaryMessage::new("❌ Veuillez spécifier un utilisateur. Utilisation : `{prefix}new <id_utilisateur_ou_mention>`")
            .with_description("L'ID utilisateur ou la mention est manquant dans la commande new_thread"),
    );
    dict.messages.insert(
        "new_thread.user_has_thread".to_string(),
        DictionaryMessage::new("❌ Cet utilisateur a déjà un thread de support actif"),
    );
    dict.messages.insert(
        "new_thread.user_has_thread_with_link".to_string(),
        DictionaryMessage::new("❌ {user} a déjà un thread de support actif\n\n📎 **Lien du thread :** <#{channel_id}>"),
    );
    dict.messages.insert(
        "new_thread.user_not_found".to_string(),
        DictionaryMessage::new("❌ Utilisateur non trouvé")
            .with_description("L'utilisateur spécifié n'existe pas ou n'est pas accessible"),
    );
    dict.messages.insert(
        "new_thread.user_not_in_community".to_string(),
        DictionaryMessage::new("❌ L'utilisateur n'est pas membre du serveur communautaire")
            .with_description("L'utilisateur doit être dans le serveur communautaire pour créer un thread"),
    );
    dict.messages.insert(
        "new_thread.user_is_a_bot".to_string(),
        DictionaryMessage::new("❌ Vous ne pouvez pas créer un ticket pour un rustmail."),
    );
    dict.messages.insert(
        "new_thread.channel_creation_failed".to_string(),
        DictionaryMessage::new("❌ Échec de création du canal de thread de support")
            .with_description("Une erreur s'est produite lors de la création du canal de thread"),
    );
    dict.messages.insert(
        "new_thread.database_error".to_string(),
        DictionaryMessage::new("❌ Échec de création du thread dans la base de données")
            .with_description("Une erreur s'est produite lors de la sauvegarde du thread dans la base de données"),
    );
    dict.messages.insert(
        "new_thread.welcome_message".to_string(),
        DictionaryMessage::new("🎫 **Thread de support créé pour {user}**\n\nCe thread a été créé par le staff. Vous pouvez maintenant communiquer avec l'équipe de support.")
            .with_description("Message de bienvenue dans le thread nouvellement créé"),
    );
    dict.messages.insert(
        "new_thread.dm_notification".to_string(),
        DictionaryMessage::new("🎫 **Thread de support ouvert**\n\nUn membre du staff a initié une conversation de support avec vous. Vous pouvez maintenant communiquer avec l'équipe de support.")
            .with_description("Notification DM envoyée à l'utilisateur quand un thread est créé"),
    );
    dict.messages.insert(
        "new_thread.success_with_dm".to_string(),
        DictionaryMessage::new("✅ Thread de support créé pour {user} dans {channel_id} par {staff}\n\nNotification DM envoyée avec succès.")
            .with_description("Message de succès quand le thread est créé et le DM envoyé"),
    );
    dict.messages.insert(
        "new_thread.success_without_dm".to_string(),
        DictionaryMessage::new("✅ Thread de support créé pour {user} dans <#{channel_id}> par {staff}\n\n⚠️ Impossible d'envoyer la notification DM (l'utilisateur peut avoir désactivé les DMs).")
            .with_description("Message de succès quand le thread est créé mais le DM échoue"),
    );
    dict.messages.insert(
        "delete.not_in_thread".to_string(),
        DictionaryMessage::new("❌ Cette commande ne peut être utilisée que dans un thread de support")
            .with_description("La commande delete doit être utilisée dans un canal de thread"),
    );
    dict.messages.insert(
        "delete.missing_number".to_string(),
        DictionaryMessage::new("❌ Veuillez spécifier un numéro de message. Utilisation : `{prefix}delete <numéro>`")
            .with_description("Le numéro de message est manquant dans la commande delete"),
    );
    dict.messages.insert(
        "delete.message_not_found".to_string(),
        DictionaryMessage::new("❌ Message #{number} non trouvé")
            .with_description("Aucun message avec ce numéro n'existe dans ce thread"),
    );
    dict.messages.insert(
        "command.discord_delete_failed".to_string(),
        DictionaryMessage::new("❌ Échec de suppression du message depuis Discord")
            .with_description("Une erreur s'est produite lors de la suppression du message depuis Discord"),
    );
    dict.messages.insert(
        "delete.database_delete_failed".to_string(),
        DictionaryMessage::new("❌ Échec de suppression du message depuis la base de données")
            .with_description("Une erreur s'est produite lors de la suppression du message depuis la base de données"),
    );
    dict.messages.insert(
        "delete.success".to_string(),
        DictionaryMessage::new("✅ Message #{number} a été supprimé avec succès")
            .with_description("Confirmation que le message a été supprimé"),
    );
    dict.messages.insert(
        "delete.removed_by_user".to_string(),
        DictionaryMessage::new("L'utilisateur {userid} a supprimé son message : \n\n{content}")
            .with_description("Entrée de log lorsque l'utilisateur supprime son message DM (répercuté dans le thread)")
            .with_help("Paramètres: content, number (optionnel si message staff)"),
    );
    dict.messages.insert(
        "delete.removed_by_staff".to_string(),
        DictionaryMessage::new("Le staff {userid} a supprimé un message : \n\n{content}")
            .with_description("Entrée de log lorsqu'un membre du staff supprime un message dans le thread ou son miroir DM")
            .with_help("Paramètres: content, number (optionnel), link (optionnel)"),
    );
    dict.messages.insert(
        "add_staff.add_success".to_string(),
        DictionaryMessage::new("L'utilisateur {user} a été ajouté au ticket avec succès."),
    );
    dict.messages.insert(
        "add_staff.remove_success".to_string(),
        DictionaryMessage::new("L'utilisateur {user} a été retiré du ticket avec succès."),
    );
    dict.messages.insert(
        "id.show_id".to_string(),
        DictionaryMessage::new("ID de {user} : {id}"),
    );
    dict.messages.insert(
        "close.closure_canceled".to_string(),
        DictionaryMessage::new("Fermeture programmée annulée."),
    );
    dict.messages.insert(
        "close.no_scheduled_closures_to_cancel".to_string(),
        DictionaryMessage::new("Aucune fermeture programmée à annuler."),
    );
    dict.messages.insert(
        "close.closure_already_scheduled".to_string(),
        DictionaryMessage::new("Une fermeture est déjà programmée dans {seconds} secondes. Utilisez !close cancel pour l'annuler."),
    );
    dict.messages.insert(
        "close.closing".to_string(),
        DictionaryMessage::new("Ce ticket sera fermé dans {time}."),
    );
    dict.messages.insert(
        "close.silent_closing".to_string(),
        DictionaryMessage::new("Ce ticket sera fermé silencieusement dans {time}."),
    );
    dict.messages.insert(
        "feature.not_implemented".to_string(),
        DictionaryMessage::new("Cette feature n'est pas encore implémentée."),
    );
    dict.messages.insert(
        "slash_command.id_command_description".to_string(),
        DictionaryMessage::new("Afficher l'ID d'un utilisateur du thread de support"),
    );
    dict.messages.insert(
        "slash_command.move_command_description".to_string(),
        DictionaryMessage::new("Déplacer le thread de support vers une autre catégorie"),
    );
    dict.messages.insert(
        "slash_command.move_command_name_argument".to_string(),
        DictionaryMessage::new("La catégorie vers laquelle déplacer le thread"),
    );
    dict.messages.insert(
        "slash_command.new_thread_command_description".to_string(),
        DictionaryMessage::new("Créer un nouveau thread de support pour un utilisateur"),
    );
    dict.messages.insert(
        "slash_command.new_thread_user_id_argument".to_string(),
        DictionaryMessage::new("L'ID de l'utilisateur pour lequel créer le thread"),
    );
    dict.messages.insert(
        "slash_command.close_command_description".to_string(),
        DictionaryMessage::new("Fermer un ticket de support"),
    );
    dict.messages.insert(
        "slash_command.close_time_before_close_argument".to_string(),
        DictionaryMessage::new("Le temps avant la fermeture du ticket (ex: 1s, 1m, 1h, 1d)"),
    );
    dict.messages.insert(
        "slash_command.close_silent_argument".to_string(),
        DictionaryMessage::new("Fermer le ticket silencieusement sans envoyer de message à l'utilisateur"),
    );
    dict.messages.insert(
        "slash_command.close_cancel_argument".to_string(),
        DictionaryMessage::new("Annuler la fermeture programmée du ticket"),
    );
    dict.messages.insert(
        "slash_command.edit_command_description".to_string(),
        DictionaryMessage::new("Editer un message envoyé dans un ticket de support"),
    );
    dict.messages.insert(
        "slash_command.edit_message_id_argument".to_string(),
        DictionaryMessage::new("Le numéro du message à éditer. Vous pouvez trouver le numéro en regardant le footer du message."),
    );
    dict.messages.insert(
        "slash_command.edit_message_argument".to_string(),
        DictionaryMessage::new("Le nouveau contenu du message"),
    );
    dict.messages.insert(
        "slash_command.add_staff_command_description".to_string(),
        DictionaryMessage::new("Ajouter un membre du staff à un ticket de support auquel il n'a pas accès"),
    );
    dict.messages.insert(
        "slash_command.add_staff_user_id_argument".to_string(),
        DictionaryMessage::new("L'ID du staff à ajouter au ticket"),
    );
    dict.messages.insert(
        "slash_command.remove_staff_command_description".to_string(),
        DictionaryMessage::new("Retirer un membre du staff d'un ticket de support"),
    );
    dict.messages.insert(
        "slash_command.remove_staff_user_id_argument".to_string(),
        DictionaryMessage::new("L'ID du staff à retirer du ticket"),
    );
    dict.messages.insert(
        "slash_command.alert_command_description".to_string(),
        DictionaryMessage::new("Définir ou annuler une alerte pour être notifié quand l'utilisateur enverra un nouveau message"),
    );
    dict.messages.insert(
        "slash_command.alert_cancel_argument".to_string(),
        DictionaryMessage::new("Annuler l'alerte"),
    );
    dict.messages.insert(
        "slash_command.force_close_command_description".to_string(),
        DictionaryMessage::new("Forcer la fermeture d'un ticket de support dont l'utilisateur n'est plus membre du serveur"),
    );
    dict.messages.insert(
        "slash_command.reply_command_description".to_string(),
        DictionaryMessage::new("Répondre à un utilisateur dans son ticket de support"),
    );
    dict.messages.insert(
        "slash_command.reply_message_argument_description".to_string(),
        DictionaryMessage::new("Le message à envoyer à l'utilisateur"),
    );
    dict.messages.insert(
        "slash_command.reply_attachment_argument_description".to_string(),
        DictionaryMessage::new("Une pièce jointe à envoyer avec le message"),
    );
    dict.messages.insert(
        "slash_command.reply_anonymous_argument_description".to_string(),
        DictionaryMessage::new("Envoyer la réponse anonymement"),
    );
    dict.messages.insert(
        "slash_command.delete_command_description".to_string(),
        DictionaryMessage::new("Supprimer un message envoyé dans un ticket de support"),
    );
    dict.messages.insert(
        "slash_command.delete_message_id_argument_description".to_string(),
        DictionaryMessage::new("Le numéro du message à supprimer. Vous pouvez trouver le numéro en regardant le footer du message."),
    );
    dict.messages.insert(
        "slash_command.recover_command_description".to_string(),
        DictionaryMessage::new("Récupérer les messages manqués pendant la période d'indisponibilité du rustmail (automatique)"),
    );
    dict.messages.insert(
        "slash_command.help_command_description".to_string(),
        DictionaryMessage::new("Afficher le message d'aide"),
    );
}

/// `m` with the French messages of the `reminder` group onward written into it, in order.
pub open spec fn with_french_reminder_messages(m: Map<Seq<char>, MessageView>) -> Map<Seq<char>, MessageView> {
    m
        .insert(
            "reminder.registered_without_content"@,
            MessageView {
                message: "⏰ Rappel enregistré pour {time} ({remaining_time}) !"@,
                description: None,
                help: None,
            },
        )
        .insert(
            "reminder.registered_with_content"@,
            MessageView {
                message: "⏰ Rappel enregistré pour {time} ({remaining_time}) !\n\n{content}"@,
                description: None,
                help: None,
            },
        )
        .insert(
            "reminder.show_with_content"@,
            MessageView {
                message: "⏰ Rappel <@{user}> : \n\n{content} !"@,
                description: None,
                help: None,
            },
        )
        .insert(
            "reminder.show_without_content"@,
            MessageView {
                message: "⏰ Rappel <@{user}> !"@,
                description: None,
                help: None,
            },
        )
        .insert(
            "slash_command.add_reminder_command_description"@,
            MessageView {
                message: "Ajouter un rappel pour vous-même"@,
                description: None,
                help: None,
            },
        )
        .insert(
            "slash_command.add_reminder_time_argument_description"@,
            MessageView {
                message: "L'heure à laquelle vous souhaitez être rappelé (format HH:MM)"@,
                description: None,
                help: None,
            },
        )
        .insert(
            "slash_command.add_reminder_content_argument_description"@,
            MessageView {
                message: "Le contenu du rappel (optionnel)"@,
                description: None,
                help: None,
            },
        )
        .insert(
            "remove_reminder.confirmation"@,
            MessageView {
                message: "Le rappel **#{id}** a été supprimé avec succès."@,
                description: None,
                help: None,
            },
        )
        .insert(
            "slash_command.remove_reminder_command_description"@,
            MessageView {
                message: "Supprimer un rappel que vous avez créé."@,
                description: None,
                help: None,
            },
        )
        .insert(
            "slash_command.remove_reminder_id_argument"@,
            MessageView {
                message: "L'ID du rappel à supprimer."@,
                description: None,
                help: None,
            },
        )
        .insert(
            "logs_command.next"@,
            MessageView {
                message: "Suivant"@,
                description: None,
                help: None,
            },
        )
        .insert(
            "logs_command.prev"@,
            MessageView {
                message: "Précédent"@,
                description: None,
                help: None,
            },
        )
        .insert(
            "slash_commands.logs_command_description"@,
            MessageView {
                message: "Afficher les logs d'un utilisateur"@,
                description: None,
                help: None,
            },
        )
        .insert(
            "slash_commands.logs_id_argument_description"@,
            MessageView {
                message: "L'ID de l'utilisateur dont vous souhaitez voir les logs"@,
                description: None,
                help: None,
            },
        )
        .insert(
            "slash_commands.no_logs_found"@,
            MessageView {
                message: "Aucun log trouvé pour cet utilisateur."@,
                description: None,
                help: None,
            },
        )
        .insert(
            "new_thread.show_logs"@,
            MessageView {
                message: "Cet utilisateur a **{logs_count}** ancien(s) ticket(s) rustmail. Utilisez `{prefix}logs` pour les voir."@,
                description: None,
                help: None,
            },
        )
        .insert(
            "reminder.reminder_already_exists"@,
            MessageView {
                message: "Vous avez déjà un rappel programmé à cette heure."@,
                description: None,
                help: None,
            },
        )
        .insert(
            "help.add_reminder"@,
            MessageView {
                message: "Configure un rappel à une heure spécifique. Pour ce faire, faites `!remind <HH:MM> <contenu du rappel>` ou `!rem <HH:MM> <contenu du rappel>`. Si l'heure est déjà passée aujourd'hui, le rappel sera programmé pour demain."@,
                description: None,
                help: None,
            },
        )
        .insert(
            "help.add_staff"@,
            MessageView {
                message: "Ajoute un membre du staff à un ticket. Pour ce faire, faites `!addmod <id du staff>` ou `!am <id du staff>` dans un ticket."@,
                description: None,
                help: None,
            },
        )
        .insert(
            "help.alert"@,
            MessageView {
                message: "Configure une alerte pour un utilisateur lorsqu'il envoie un nouveau message. Pour programmer une alerte, faites `!alert` dans un ticket. Pour annuler une alerte programmée, faites `!alert cancel` ou `!alert c`."@,
                description: None,
                help: None,
            },
        )
        .insert(
            "help.close"@,
            MessageView {
                message: "Ferme le ticket actuel. Vous pouvez spécifier un délai avant la fermeture en faisant : `!close <durée (d, h, m ou s)>` ou `!c <durée (d, h, m ou s)>`. Vous pouvez ajouter l'option `--silent` ou `-s` pour ne pas avertir l'utilisateur que son ticket a été fermé. Vous pouvez également annuler une fermeture programmée en faisant `!close --cancel`, `!close -c` ou `!close cancel`."@,
                description: None,
                help: None,
            },
        )
        .insert(
            "help.delete"@,
            MessageView {
                message: "Supprime un message spécifique dans un fil de discussion. Pour ce faire, faites `!delete <id du message>` dans un ticket."@,
                description: None,
                help: None,
            },
        )
        .insert(
            "help.edit"@,
            MessageView {
                message: "Modifie le contenu d'un message précédemment envoyé dans un ticket. Pour modifier un message, faites `!edit <id du message> <nouveau contenu>` ou `!e <id du message> <nouveau contenu>` dans un ticket."@,
                description: None,
                help: None,
            },
        )
        .insert(
            "help.force_close"@,
            MessageView {
                message: "Ferme un ticket lorsqu'une erreur empêche la fermeture normale. Cette commande disparaîtra dans les prochaines versions. Pour forcer la fermeture d'un ticket, faites `!force_close` ou `!fc` dans un ticket."@,
                description: None,
                help: None,
            },
        )
        .insert(
            "help.help"@,
            MessageView {
                message: "Affiche une liste de toutes les commandes disponibles avec une brève description. Pour afficher le message d'aide, faites `!help`."@,
                description: None,
                help: None,
            },
        )
        .insert(
            "help.id"@,
            MessageView {
                message: "Affiche l'identifiant Discord de l'utilisateur associé au ticket. Pour afficher l'ID de l'utilisateur, faites `!id` dans un ticket."@,
                description: None,
                help: None,
            },
        )
        .insert(
            "help.logs"@,
            MessageView {
                message: "Récupère les logs de tous les anciens tickets d'un utilisateur. Vous pouvez soit spécifier un identifiant Discord (`!logs <discord_id>`), soit exécuter la commande dans un ticket pour obtenir les logs de ce ticket."@,
                description: None,
                help: None,
            },
        )
        .insert(
            "help.move"@,
            MessageView {
                message: "Déplace le ticket actuel vers une autre catégorie. Pour déplacer un ticket, faites `!move <catégorie>` ou `!mv <catégorie>` dans le ticket."@,
                description: None,
                help: None,
            },
        )
        .insert(
            "help.new_thread"@,
            MessageView {
                message: "Crée un nouveau ticket pour un utilisateur spécifié. Pour créer un ticket, faites `!new_thread <utilisateur>` ou `!nt <utilisateur>`."@,
                description: None,
                help: None,
            },
        )
        .insert(
            "help.recover"@,
            MessageView {
                message: "Lance le processus de récupération des messages manquants dans les tickets Modmail. Ce processus est automatique, mais cette commande permet de le relancer manuellement si nécessaire. Pour cela, faites `!recover`."@,
                description: None,
                help: None,
            },
        )
        .insert(
            "help.remove_reminder"@,
            MessageView {
                message: "Supprime un rappel que vous avez précédemment configuré. Pour supprimer un rappel, faites `!unremind <id>` ou `!urem <id>`."@,
                description: None,
                help: None,
            },
        )
        .insert(
            "help.remove_staff"@,
            MessageView {
                message: "Retire un membre du staff du ticket actuel. Pour retirer un staff, faites `!delmod <utilisateur>` ou `!dm <utilisateur>` dans le ticket."@,
                description: None,
                help: None,
            },
        )
        .insert(
            "help.reply"@,
            MessageView {
                message: "Répond dans un ticket. Pour répondre, faites `!reply <message> [attachment]` ou `!r <message> [attachment]` dans le ticket. Si vous souhaitez répondre anonymement, utilisez la commande `!anonreply`, `!ar`, ou spécifiez l'option dans la commande slash `reply`."@,
                description: None,
                help: None,
            },
        )
        .insert(
            "help.message"@,
            MessageView {
                message: "## Commandes :\n\n**Toutes les commandes** disponibles sont également utilisables via des **__commandes slash__** portant le __même nom__.\n\n"@,
                description: None,
                help: None,
            },
        )
        .insert(
            "add_reminder.helper"@,
            MessageView {
                message: "Format incorrect. Utilisation : `{prefix}remind ou {prefix}rem <HH:MM> [contenu du rappel]`"@,
                description: None,
                help: None,
            },
        )
}

fn load_french_reminder_messages(dict: &mut ErrorDictionary)
    ensures
        final(dict)@ == with_french_reminder_messages(old(dict)@),
{
    dict.messages.insert(
        "reminder.registered_without_content".to_string(),
        DictionaryMessage::new("⏰ Rappel enregistré pour {time} ({remaining_time}) !"),
    );
    dict.messages.insert(
        "reminder.registered_with_content".to_string(),
        DictionaryMessage::new("⏰ Rappel enregistré pour {time} ({remaining_time}) !\n\n{content}"),
    );
    dict.messages.insert(
        "reminder.show_with_content".to_string(),
        DictionaryMessage::new("⏰ Rappel <@{user}> : \n\n{content} !"),
    );
    dict.messages.insert(
        "reminder.show_without_content".to_string(),
        DictionaryMessage::new("⏰ Rappel <@{user}> !"),
    );
    dict.messages.insert(
        "slash_command.add_reminder_command_description".to_string(),
        DictionaryMessage::new("Ajouter un rappel pour vous-même"),
    );
    dict.messages.insert(
        "slash_command.add_reminder_time_argument_description".to_string(),
        DictionaryMessage::new("L'heure à laquelle vous souhaitez être rappelé (format HH:MM)"),
    );
    dict.messages.insert(
        "slash_command.add_reminder_content_argument_description".to_string(),
        DictionaryMessage::new("Le contenu du rappel (optionnel)"),
    );
    dict.messages.insert(
        "remove_reminder.confirmation".to_string(),
        DictionaryMessage::new("Le rappel **#{id}** a été supprimé avec succès."),
    );
    dict.messages.insert(
        "slash_command.remove_reminder_command_description".to_string(),
        DictionaryMessage::new("Supprimer un rappel que vous avez créé."),
    );
    dict.messages.insert(
        "slash_command.remove_reminder_id_argument".to_string(),
        DictionaryMessage::new("L'ID du rappel à supprimer."),
    );
    dict.messages.insert(
        "logs_command.next".to_string(),
        DictionaryMessage::new("Suivant"),
    );
    dict.messages.insert(
        "logs_command.prev".to_string(),
        DictionaryMessage::new("Précédent"),
    );
    dict.messages.insert(
        "slash_commands.logs_command_description".to_string(),
        DictionaryMessage::new("Afficher les logs d'un utilisateur"),
    );
    dict.messages.insert(
        "slash_commands.logs_id_argument_description".to_string(),
        DictionaryMessage::new("L'ID de l'utilisateur dont vous souhaitez voir les logs"),
    );
    dict.messages.insert(
        "slash_commands.no_logs_found".to_string(),
        DictionaryMessage::new("Aucun log trouvé pour cet utilisateur."),
    );
    dict.messages.insert(
        "new_thread.show_logs".to_string(),
        DictionaryMessage::new("Cet utilisateur a **{logs_count}** ancien(s) ticket(s) rustmail. Utilisez `{prefix}logs` pour les voir."),
    );
    dict.messages.insert(
        "reminder.reminder_already_exists".to_string(),
        DictionaryMessage::new("Vous avez déjà un rappel programmé à cette heure."),
    );
    dict.messages.insert(
        "help.add_reminder".to_string(),
        DictionaryMessage::new("Configure un rappel à une heure spécifique. Pour ce faire, faites `!remind <HH:MM> <contenu du rappel>` ou `!rem <HH:MM> <contenu du rappel>`. Si l'heure est déjà passée aujourd'hui, le rappel sera programmé pour demain."),
    );
    dict.messages.insert(
        "help.add_staff".to_string(),
        DictionaryMessage::new("Ajoute un membre du staff à un ticket. Pour ce faire, faites `!addmod <id du staff>` ou `!am <id du staff>` dans un ticket."),
    );
    dict.messages.insert(
        "help.alert".to_string(),
        DictionaryMessage::new("Configure une alerte pour un utilisateur lorsqu'il envoie un nouveau message. Pour programmer une alerte, faites `!alert` dans un ticket. Pour annuler une alerte programmée, faites `!alert cancel` ou `!alert c`."),
    );
    dict.messages.insert(
        "help.close".to_string(),
        DictionaryMessage::new("Ferme le ticket actuel. Vous pouvez spécifier un délai avant la fermeture en faisant : `!close <durée (d, h, m ou s)>` ou `!c <durée (d, h, m ou s)>`. Vous pouvez ajouter l'option `--silent` ou `-s` pour ne pas avertir l'utilisateur que son ticket a été fermé. Vous pouvez également annuler une fermeture programmée en faisant `!close --cancel`, `!close -c` ou `!close cancel`."),
    );
    dict.messages.insert(
        "help.delete".to_string(),
        DictionaryMessage::new("Supprime un message spécifique dans un fil de discussion. Pour ce faire, faites `!delete <id du message>` dans un ticket."),
    );
    dict.messages.insert(
        "help.edit".to_string(),
        DictionaryMessage::new("Modifie le contenu d'un message précédemment envoyé dans un ticket. Pour modifier un message, faites `!edit <id du message> <nouveau contenu>` ou `!e <id du message> <nouveau contenu>` dans un ticket."),
    );
    dict.messages.insert(
        "help.force_close".to_string(),
        DictionaryMessage::new("Ferme un ticket lorsqu'une erreur empêche la fermeture normale. Cette commande disparaîtra dans les prochaines versions. Pour forcer la fermeture d'un ticket, faites `!force_close` ou `!fc` dans un ticket."),
    );
    dict.messages.insert(
        "help.help".to_string(),
        DictionaryMessage::new("Affiche une liste de toutes les commandes disponibles avec une brève description. Pour afficher le message d'aide, faites `!help`."),
    );
    dict.messages.insert(
        "help.id".to_string(),
        DictionaryMessage::new("Affiche l'identifiant Discord de l'utilisateur associé au ticket. Pour afficher l'ID de l'utilisateur, faites `!id` dans un ticket."),
    );
    dict.messages.insert(
        "help.logs".to_string(),
        DictionaryMessage::new("Récupère les logs de tous les anciens tickets d'un utilisateur. Vous pouvez soit spécifier un identifiant Discord (`!logs <discord_id>`), soit exécuter la commande dans un ticket pour obtenir les logs de ce ticket."),
    );
    dict.messages.insert(
        "help.move".to_string(),
        DictionaryMessage::new("Déplace le ticket actuel vers une autre catégorie. Pour déplacer un ticket, faites `!move <catégorie>` ou `!mv <catégorie>` dans le ticket."),
    );
    dict.messages.insert(
        "help.new_thread".to_string(),
        DictionaryMessage::new("Crée un nouveau ticket pour un utilisateur spécifié. Pour créer un ticket, faites `!new_thread <utilisateur>` ou `!nt <utilisateur>`."),
    );
    dict.messages.insert(
        "help.recover".to_string(),
        DictionaryMessage::new("Lance le processus de récupération des messages manquants dans les tickets Modmail. Ce processus est automatique, mais cette commande permet de le relancer manuellement si nécessaire. Pour cela, faites `!recover`."),
    );
    dict.messages.insert(
        "help.remove_reminder".to_string(),
        DictionaryMessage::new("Supprime un rappel que vous avez précédemment configuré. Pour supprimer un rappel, faites `!unremind <id>` ou `!urem <id>`."),
    );
    dict.messages.insert(
        "help.remove_staff".to_string(),
        DictionaryMessage::new("Retire un membre du staff du ticket actuel. Pour retirer un staff, faites `!delmod <utilisateur>` ou `!dm <utilisateur>` dans le ticket."),
    );
    dict.messages.insert(
        "help.reply".to_string(),
        DictionaryMessage::new("Répond dans un ticket. Pour répondre, faites `!reply <message> [attachment]` ou `!r <message> [attachment]` dans le ticket. Si vous souhaitez répondre anonymement, utilisez la commande `!anonreply`, `!ar`, ou spécifiez l'option dans la commande slash `reply`."),
    );
    dict.messages.insert(
        "help.message".to_string(),
        DictionaryMessage::new("## Commandes :\n\n**Toutes les commandes** disponibles sont également utilisables via des **__commandes slash__** portant le __même nom__.\n\n"),
    );
    dict.messages.insert(
        "add_reminder.helper".to_string(),
        DictionaryMessage::new("Format incorrect. Utilisation : `{prefix}remind ou {prefix}rem <HH:MM> [contenu du rappel]`"),
    );
}

/// `m` with all the French messages written into it.
pub open spec fn with_french_messages(m: Map<Seq<char>, MessageView>) -> Map<Seq<char>, MessageView> {
    with_french_reminder_messages(with_french_move_thread_messages(with_french_reply_messages(with_french_database_messages(m))))
}

/// Writes the French messages into `dict`.
pub fn load_french_messages(dict: &mut ErrorDictionary)
    ensures
        final(dict)@ == with_french_messages(old(dict)@),
{
    load_french_database_messages(dict);
    load_french_reply_messages(dict);
    load_french_move_thread_messages(dict);
    load_french_reminder_messages(dict);
}

proof fn lemma_french_database_group_overlays(m: Map<Seq<char>, MessageView>)
    ensures
        with_french_database_messages(m) == m.union_prefer_right(with_french_database_messages(Map::empty())),
{
    assert(with_french_database_messages(m) =~= m.union_prefer_right(with_french_database_messages(Map::empty())));
}

proof fn lemma_french_reply_group_overlays(m: Map<Seq<char>, MessageView>)
    ensures
        with_french_reply_messages(m) == m.union_prefer_right(with_french_reply_messages(Map::empty())),
{
    assert(with_french_reply_messages(m) =~= m.union_prefer_right(with_french_reply_messages(Map::empty())));
}

proof fn lemma_french_move_thread_group_overlays(m: Map<Seq<char>, MessageView>)
    ensures
        with_french_move_thread_messages(m) == m.union_prefer_right(with_french_move_thread_messages(Map::empty())),
{
    assert(with_french_move_thread_messages(m) =~= m.union_prefer_right(with_french_move_thread_messages(Map::empty())));
}

proof fn lemma_french_reminder_group_overlays(m: Map<Seq<char>, MessageView>)
    ensures
        with_french_reminder_messages(m) == m.union_prefer_right(with_french_reminder_messages(Map::empty())),
{
    assert(with_french_reminder_messages(m) =~= m.union_prefer_right(with_french_reminder_messages(Map::empty())));
}

/// All the French messages: what loading them into an empty dictionary gives.
pub open spec fn french_messages() -> Map<Seq<char>, MessageView> {
    with_french_messages(Map::empty())
}

/// Loading the French messages writes each of them over what the dictionary
/// held and leaves every other entry as it was.
pub proof fn lemma_french_load_overlays(m: Map<Seq<char>, MessageView>)
    ensures
        with_french_messages(m) == m.union_prefer_right(french_messages()),
{
    let e = Map::<Seq<char>, MessageView>::empty();
    assert(m.union_prefer_right(e) =~= m);
    assert(e.union_prefer_right(e) =~= e);
    let a0 = with_french_database_messages(m);
    let b0 = with_french_database_messages(e);
    lemma_french_database_group_overlays(m);
    lemma_french_database_group_overlays(e);
    lemma_overlay_associates(m, e, with_french_database_messages(e));
    assert(a0 == m.union_prefer_right(b0));
    let a1 = with_french_reply_messages(a0);
    let b1 = with_french_reply_messages(b0);
    lemma_french_reply_group_overlays(a0);
    lemma_french_reply_group_overlays(b0);
    lemma_overlay_associates(m, b0, with_french_reply_messages(e));
    assert(a1 == m.union_prefer_right(b1));
    let a2 = with_french_move_thread_messages(a1);
    let b2 = with_french_move_thread_messages(b1);
    lemma_french_move_thread_group_overlays(a1);
    lemma_french_move_thread_group_overlays(b1);
    lemma_overlay_associates(m, b1, with_french_move_thread_messages(e));
    assert(a2 == m.union_prefer_right(b2));
    let a3 = with_french_reminder_messages(a2);
    let b3 = with_french_reminder_messages(b2);
    lemma_french_reminder_group_overlays(a2);
    lemma_french_reminder_group_overlays(b2);
    lemma_overlay_associates(m, b2, with_french_reminder_messages(e));
    assert(a3 == m.union_prefer_right(b3));
}

/// Loading the French messages adds or rewrites only French keys: afterwards the
/// dictionary holds its old keys and the French ones, each French key with its
/// French message, and every other key with its old message.
pub proof fn lemma_french_load_only_writes_french_keys(m: Map<Seq<char>, MessageView>)
    ensures
        with_french_messages(m).dom() == m.dom().union(french_messages().dom()),
        forall|k: Seq<char>| #[trigger] french_messages().contains_key(k) ==> with_french_messages(m)[k]
            == french_messages()[k],
        forall|k: Seq<char>|
            !french_messages().contains_key(k) && m.contains_key(k) ==> #[trigger] with_french_messages(m)[k]
                == m[k],
{
    lemma_french_load_overlays(m);
}

/// Loading the French messages a second time changes nothing.
pub proof fn lemma_french_load_idempotent(m: Map<Seq<char>, MessageView>)
    ensures
        with_french_messages(with_french_messages(m)) == with_french_messages(m),
{
    lemma_french_load_overlays(m);
    lemma_french_load_overlays(with_french_messages(m));
    assert(m.union_prefer_right(french_messages()).union_prefer_right(french_messages()) =~= m.union_prefer_right(
        french_messages(),
    ));
}

/// French laid over English: loading the English messages and then the French
/// ones leaves, for each key, its French message when French has one, else its
/// English message when English has one, else what the dictionary held.
pub proof fn lemma_french_over_english(m: Map<Seq<char>, MessageView>)
    ensures
        with_french_messages(with_english_messages(m)) == m.union_prefer_right(english_messages()).union_prefer_right(
            french_messages(),
        ),
        with_french_messages(with_english_messages(m)).dom() == m.dom().union(
            english_messages().dom(),
        ).union(french_messages().dom()),
        forall|k: Seq<char>| #[trigger] french_messages().contains_key(k) ==> with_french_messages(
            with_english_messages(m),
        )[k] == french_messages()[k],
        forall|k: Seq<char>|
            !french_messages().contains_key(k) && #[trigger] english_messages().contains_key(k)
                ==> with_french_messages(with_english_messages(m))[k] == english_messages()[k],
        forall|k: Seq<char>|
            !french_messages().contains_key(k) && !english_messages().contains_key(k)
                && m.contains_key(k) ==> #[trigger] with_french_messages(with_english_messages(m))[k]
                == m[k],
{
    lemma_english_load_overlays(m);
    lemma_french_load_overlays(with_english_messages(m));
    assert(m.union_prefer_right(english_messages()).union_prefer_right(french_messages()).dom()
        =~= m.dom().union(english_messages().dom()).union(french_messages().dom()));
}

} // verus!
