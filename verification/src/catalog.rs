//! The authored catalog: the fixed, ordered list of situations built once at
//! startup. Every situation carries a complete answer mapping — one scripted
//! answer per unordered pair of strategies — which the construction below
//! guarantees.

use vstd::prelude::*;

use crate::situation::Situation;
use crate::situation::make_answers;

verus! {

/// Builds the authored catalog of situations. The catalog is non-empty and
/// every situation's answer mapping is complete, so a reveal never needs the
/// sentinel fallback.
pub fn build_situations() -> (v: Vec<Situation>)
    ensures
        v@.len() > 0,
        forall|i: int| 0 <= i < v@.len() ==> (#[trigger] v@[i]).answers.is_complete(),
{
    let mut v: Vec<Situation> = Vec::new();

    v.push(
        Situation {
            title: "Почему ретро перенесли?".to_owned(),
            description: "Команда интересуется, почему ежедневная встреча испарилась...".to_owned(),
            answers: make_answers(
                "Мы хотели, чтобы всем было удобно подключиться, поэтому слегка сдвинули. Чуть позже уточним финальное время.",
                "Там образовался важный созвон, пришлось подвигать. Не закапываемся, идём по текущему расписанию.",
                "Время ещё финалится на уровне выше. Пока работаем так, без обсуждения. (что бы это не значило...)",
            ),
        },
    );

    v.push(
        Situation {
            title: "Почему в джире опять другие приоритеты?".to_owned(),
            description: "Разработчики видят, что задачи снова переприоритизировали...".to_owned(),
            answers: make_answers(
                "Это не смена приоритета, мы просто уточнили бизнес-цели. Позже вышлю роадмап.",
                "Так и планировалось, просто вы пока не видите полный контекст. Берём то, что есть.",
                "Это сейчас решается выше. Как скажут - так и возьмём, возвращаться не будем.",
            ),
        },
    );

    v.push(
        Situation {
            title: "Можно нормальные требования сразу, а не по кусочкам?".to_owned(),
            description: "Команда хочет цельное ТЗ...".to_owned(),
            answers: make_answers(
                "Они есть, мы их доупаковываем для вас. Как только согласуем - пришлю цельный вариант.",
                "Это практически финальная версия, но у нас вчера был напряжённый релиз, поэтому не всё прошло гладко.",
                "Сейчас не до этого, у нас важный хотфикс. Как стабилизируемся - оформим и вернёмся.",
            ),
        },
    );

    v.push(
        Situation {
            title: "Зачем ещё один созвон по тому же вопросу?".to_owned(),
            description: "Коллеги не рады приглашению на повторную встречу...".to_owned(),
            answers: make_answers(
                "Появилась новая информация, надо быстро всех синхронизировать. Детали позже.",
                "Это был изначально контрольный созвон. Просто отметимся и дальше.",
                "Так решили сверху. Проводим и не обсуждаем.",
            ),
        },
    );

    v.push(
        Situation {
            title: "Почему у нас нет нормальной документации?".to_owned(),
            description: "Классическая боль по докам...".to_owned(),
            answers: make_answers(
                "Документация ведётся, просто не у всех есть доступ к ней. Уточню, когда выкатят.",
                "Документация есть в рабочем виде. Сейчас это вторично.",
                "Фокус не на этом. Как будут ресурсы - сделаем.",
            ),
        },
    );

    v.push(
        Situation {
            title: "Когда будет зарплата за этот месяц?".to_owned(),
            description: "Самый ожидаемый вопрос...".to_owned(),
            answers: make_answers(
                "Платёж уже ушёл, деньги в пути. Если до конца недели не придут - дёрнем ещё раз.",
                "Она заложена, просто сейчас задержка на стороне бухгалтерии или банка. Не останавливаемся, работаем.",
                "Точной даты сейчас не дадим. Как только будет финал - сообщим единым сообщением.",
            ),
        },
    );

    v.push(
        Situation {
            title: "Почему нам не сказали заранее про сдвиг выплат?".to_owned(),
            description: "Коммуникация зап@зд?ла...".to_owned(),
            answers: make_answers(
                "Мы сами узнали в последний момент и не хотели дезинформировать. В следующий раз предупредим раньше.",
                "Информация была, но в рабочем виде. Сейчас не копаемся, идём дальше.",
                "Коммуникацию улучшим. Пока фиксируем, что так случилось.",
            ),
        },
    );

    v.push(
        Situation {
            title: "Когда нормальный тимбилдинг, а не `пицца дома`?".to_owned(),
            description: "И рыбку съесть, и пиццу тоже...".to_owned(),
            answers: make_answers(
                "Мы как раз обсуждаем формат, чтобы всем зашло. Чуть позже скинем варианты.",
                "Корпоратив заложен, просто сейчас не время раскрывать детали. Не спойлерим.",
                "Сначала стабилизируемся по выплатам, потом развлечения. Тему пока откладываем.",
            ),
        },
    );

    v.push(
        Situation {
            title: "А можно нам мерч, чтобы хоть что-то материальное от компании было?".to_owned(),
            description: "А зачем мерч если айтышники только дома сидят...".to_owned(),
            answers: make_answers(
                "Мерч уже в проработке, ищем подрядчика. Чуть позже соберём размеры.",
                "Мерч - часть HR-стратегии, он не отменён. Сейчас не отвлекаемся от задач.",
                "Пока приоритет не на этом. Вернёмся к мерчу, когда будет окно.",
            ),
        },
    );

    v.push(
        Situation {
            title: "Почему вы нанимаете людей, если зарплаты задерживаются?".to_owned(),
            description: "Про странный приоритет, значитс...".to_owned(),
            answers: make_answers(
                "Это разные бюджеты, они не пересекаются. Позже расскажем структуру затрат.",
                "Набор - часть стратегии роста. Не смешиваем это с выплатами.",
                "Этим занимается другой отдел. В общем финобновлении будет ответ.",
            ),
        },
    );

    v.push(
        Situation {
            title: "Компания вообще жива? Нас не закрывают?".to_owned(),
            description: "Панический вопрос!.!".to_owned(),
            answers: make_answers(
                "Компания в норме, мы просто в перестройке. Чуть позже покажем все цифры.",
                "У нас всё под контролем, вы видите только часть. Не паникуем, работаем.",
                "Эту тему сейчас не поднимаем. Будет официальный апдейт - получите.",
            ),
        },
    );

    v.push(
        Situation {
            title: "Почему 'последний раз задержка' уже третий раз?".to_owned(),
            description: "Тоторо... Тоторо...".to_owned(),
            answers: make_answers(
                "Первые кейсы были внешними. Сейчас выходим на стабильность, позже дам подтверждение.",
                "Мы говорили про те конкретные случаи, этот - другой. Не смешиваем.",
                "Сейчас не копаемся в формулировках. Важно, что двигаемся к нормальному циклу.",
            ),
        },
    );

    v.push(
        Situation {
            title: "А нас когда уже заменит ИИ, чтобы он получал задержанную зарплату вместо нас?".to_owned(),
            description: "Кстати, да...".to_owned(),
            answers: make_answers(
                "Мы уже исследуем AI-направление, но людей оно не заменяет. Позже расскажем, как будем использовать.",
                "ИИ - это доп-инструмент, а не замена. Сейчас не уходим в эту тему.",
                "Это не приоритет сейчас. Как будет стратегия по AI - презентуем.",
            ),
        },
    );

    v.push(
        Situation {
            title: "Почему у Пети MacBook новый, а у меня вентилятор взлетает от гугл-мита?".to_owned(),
            description: "У пети просто лицензи на огнестрел есть...".to_owned(),
            answers: make_answers(
                "Это был тест рабочего устройства, мы ещё будем раздавать. Чуть позже уточним по технике.",
                "Это под конкретные задачи. Сейчас не будем сравнивать железо.",
                "Сначала закрываем рабочие вопросы. Обновление техники обсудим отдельно.",
            ),
        },
    );

    v.push(
        Situation {
            title: "Если всё хорошо, почему вы не показываете цифры?".to_owned(),
            description: "Вот именно, что цифры...".to_owned(),
            answers: make_answers(
                "Мы как раз готовим прозрачный отчёт. Дайте время, чтобы он был корректным.",
                "Цифры положительные, просто они внутренняя инфа. Сейчас не тот формат.",
                "Финансовая инфа будет в официальном канале. Пока тему закрываем.",
            ),
        },
    );

    v
}

} // verus!
